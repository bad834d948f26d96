use odbc_api::error::{DiagnosticRecord, Error};
use odbc_api::handles::{Bindings, CData, HasDataType, Statement};
use odbc_api::data_type::DataType;
use odbc_api::parameter::{InputParameter, OutputParameter};
use odbc_api::parameter_collection::{
    parameter_number, InputParameterCollection, ParameterCollectionRef, ParameterTupleElement,
};
use odbc_api::varcell::{VarBinaryBox, VarCharArray, VarCharBox, VarCharSlice};

/// What a statement has been handed with one call.
#[derive(Debug, PartialEq, Eq)]
struct Call {
    position: u16,
    output: bool,
    c_data_type: odbc_sys::CDataType,
    data_type: DataType,
    buffer_length: isize,
    value: Vec<u8>,
    indicator: isize,
}

fn input(position: u16, value: &[u8], indicator: isize) -> Call {
    Call {
        position,
        output: false,
        c_data_type: odbc_sys::CDataType::Char,
        data_type: DataType::Varchar { length: value.len() },
        buffer_length: value.len() as isize,
        value: value.to_vec(),
        indicator,
    }
}

/// Keeps the calls it is handed, and refuses the call for one position if told so.
struct Recorder {
    calls: Vec<Call>,
    refused: Option<u16>,
}

impl Recorder {
    fn new() -> Self {
        Recorder { calls: Vec::new(), refused: None }
    }

    fn refusing(position: u16) -> Self {
        Recorder { calls: Vec::new(), refused: Some(position) }
    }

    fn record(&mut self, call: Call) -> Result<(), DiagnosticRecord> {
        if self.refused == Some(call.position) {
            return Err(refusal(call.position));
        }
        self.calls.push(call);
        Ok(())
    }
}

fn refusal(position: u16) -> DiagnosticRecord {
    DiagnosticRecord { state: *b"07009", native_error: position as i32 }
}

impl Statement for Recorder {
    fn bind_input_parameter<P: InputParameter + ?Sized>(
        &mut self,
        parameter_number: u16,
        parameter: &P,
    ) -> Result<(), DiagnosticRecord> {
        self.record(Call {
            position: parameter_number,
            output: false,
            c_data_type: parameter.cdata_type(),
            data_type: parameter.data_type(),
            buffer_length: parameter.buffer_length(),
            value: parameter.value_ref().to_vec(),
            indicator: *parameter.indicator_ref(),
        })
    }

    fn bind_parameter<P: OutputParameter>(
        &mut self,
        parameter_number: u16,
        parameter: &mut P,
    ) -> Result<(), DiagnosticRecord> {
        self.record(Call {
            position: parameter_number,
            output: true,
            c_data_type: parameter.cdata_type(),
            data_type: parameter.data_type(),
            buffer_length: parameter.buffer_length(),
            value: parameter.value_ref().to_vec(),
            indicator: *parameter.indicator_ref(),
        })
    }
}

#[test]
fn single_value_is_a_set_of_one() {
    let cell = VarCharBox::from_vec(b"abc".to_vec());
    assert_eq!(InputParameterCollection::parameter_set_size(&cell), 1);
    assert_eq!(ParameterCollectionRef::parameter_set_size(&&cell), 1);
    let mut cell = VarCharArray::<4>::new(b"abc");
    assert_eq!(ParameterCollectionRef::parameter_set_size(&&mut cell), 1);
}

#[test]
fn tuple_is_a_set_of_one() {
    let a = VarCharBox::from_vec(b"a".to_vec());
    let b = VarBinaryBox::from_vec(b"b".to_vec());
    let c = VarCharSlice::new(b"c");
    assert_eq!(().parameter_set_size(), 1);
    assert_eq!((&a,).parameter_set_size(), 1);
    assert_eq!((&a, &b).parameter_set_size(), 1);
    assert_eq!((&a, &b, &c).parameter_set_size(), 1);
}

#[test]
fn slice_is_a_set_of_its_length() {
    let cells = [
        VarCharBox::from_vec(b"a".to_vec()),
        VarCharBox::from_vec(b"b".to_vec()),
        VarCharBox::from_vec(b"c".to_vec()),
        VarCharBox::from_vec(b"d".to_vec()),
    ];
    assert_eq!(InputParameterCollection::parameter_set_size(&cells[..]), 4);
    assert_eq!(InputParameterCollection::parameter_set_size(&cells[..1]), 1);
    assert_eq!(ParameterCollectionRef::parameter_set_size(&&cells[..]), 4);
}

#[test]
fn empty_slice_is_an_empty_set() {
    let cells: [VarCharBox; 0] = [];
    assert_eq!(InputParameterCollection::parameter_set_size(&cells[..]), 0);
    assert_eq!(ParameterCollectionRef::parameter_set_size(&&cells[..]), 0);
    let mut stmt = Bindings::new(Recorder::new());
    assert_eq!(cells[..].bind_input_parameters_to(&mut stmt), Ok(()));
    assert!(stmt.into_statement().calls.is_empty());
}

#[test]
fn placeholders_are_counted_from_one() {
    assert_eq!(parameter_number(0), 1);
    assert_eq!(parameter_number(1), 2);
    assert_eq!(parameter_number(65534), 65535);
}

#[test]
fn single_value_is_bound_to_the_first_placeholder() {
    let cell = VarCharBox::from_vec(b"abc".to_vec());
    let mut stmt = Bindings::new(Recorder::new());
    assert_eq!(cell.bind_input_parameters_to(&mut stmt), Ok(()));
    assert_eq!(stmt.into_statement().calls, vec![input(1, b"abc", 3)]);

    let mut stmt = Bindings::new(Recorder::new());
    assert_eq!((&cell).bind_parameters_to(&mut stmt), Ok(()));
    assert_eq!(stmt.into_statement().calls, vec![input(1, b"abc", 3)]);

    let mut stmt = Bindings::new(Recorder::refusing(1));
    assert_eq!(
        cell.bind_input_parameters_to(&mut stmt),
        Err(Error::Diagnostics { record: refusal(1) })
    );
    assert!(stmt.into_statement().calls.is_empty());
}

#[test]
fn output_parameter_is_bound_to_the_first_placeholder() {
    let mut cell = VarCharArray::<4>::new(b"abcdef");
    let mut stmt = Bindings::new(Recorder::new());
    assert_eq!((&mut cell).bind_parameters_to(&mut stmt), Ok(()));
    let mut expected = input(1, b"abc\0", 6);
    expected.output = true;
    assert_eq!(stmt.into_statement().calls, vec![expected]);

    let mut stmt = Bindings::new(Recorder::refusing(1));
    assert_eq!(
        (&mut cell).bind_parameters_to(&mut stmt),
        Err(Error::Diagnostics { record: refusal(1) })
    );
    assert!(stmt.into_statement().calls.is_empty());
}

#[test]
fn tuple_is_bound_left_to_right() {
    let a = VarCharBox::from_vec(b"first".to_vec());
    let b = VarCharSlice::new(b"second");
    let mut c = VarCharArray::<4>::new(b"third");
    let mut stmt = Bindings::new(Recorder::new());
    assert_eq!((&a, &b, &mut c).bind_parameters_to(&mut stmt), Ok(()));
    let mut third = input(3, b"thi\0", 5);
    third.output = true;
    assert_eq!(
        stmt.into_statement().calls,
        vec![input(1, b"first", 5), input(2, b"second", 6), third]
    );

    let mut stmt = Bindings::new(Recorder::new());
    assert_eq!((&b, &a).bind_parameters_to(&mut stmt), Ok(()));
    assert_eq!(
        stmt.into_statement().calls,
        vec![input(1, b"second", 6), input(2, b"first", 5)]
    );

    let mut stmt = Bindings::new(Recorder::new());
    assert_eq!((&b,).bind_parameters_to(&mut stmt), Ok(()));
    assert_eq!(stmt.into_statement().calls, vec![input(1, b"second", 6)]);

    let mut stmt = Bindings::new(Recorder::new());
    assert_eq!(().bind_parameters_to(&mut stmt), Ok(()));
    assert!(stmt.into_statement().calls.is_empty());
}

#[test]
fn tuple_stops_at_the_first_failure() {
    let a = VarCharBox::from_vec(b"first".to_vec());
    let b = VarCharSlice::new(b"second");
    let c = VarCharSlice::new(b"third");
    let mut stmt = Bindings::new(Recorder::refusing(2));
    assert_eq!(
        (&a, &b, &c).bind_parameters_to(&mut stmt),
        Err(Error::Diagnostics { record: refusal(2) })
    );
    assert_eq!(stmt.into_statement().calls, vec![input(1, b"first", 5)]);

    let mut stmt = Bindings::new(Recorder::refusing(1));
    assert_eq!(
        (&a, &b, &c).bind_parameters_to(&mut stmt),
        Err(Error::Diagnostics { record: refusal(1) })
    );
    assert!(stmt.into_statement().calls.is_empty());

    let mut stmt = Bindings::new(Recorder::refusing(3));
    assert_eq!(
        (&a, &b, &c).bind_parameters_to(&mut stmt),
        Err(Error::Diagnostics { record: refusal(3) })
    );
    assert_eq!(
        stmt.into_statement().calls,
        vec![input(1, b"first", 5), input(2, b"second", 6)]
    );
}

#[test]
fn slice_is_bound_in_ascending_order() {
    let cells = [
        VarCharBox::from_vec(b"a".to_vec()),
        VarCharBox::from_vec(b"bb".to_vec()),
        VarCharBox::null(),
        VarCharBox::from_vec(b"dddd".to_vec()),
    ];
    let mut stmt = Bindings::new(Recorder::new());
    assert_eq!(cells[..].bind_input_parameters_to(&mut stmt), Ok(()));
    assert_eq!(
        stmt.into_statement().calls,
        vec![input(1, b"a", 1), input(2, b"bb", 2), input(3, b"\0", -1), input(4, b"dddd", 4)]
    );

    let mut stmt = Bindings::new(Recorder::new());
    assert_eq!((&cells[1..3]).bind_parameters_to(&mut stmt), Ok(()));
    assert_eq!(stmt.into_statement().calls, vec![input(1, b"bb", 2), input(2, b"\0", -1)]);
}

#[test]
fn slice_stops_at_the_first_failure() {
    let cells = [
        VarCharBox::from_vec(b"a".to_vec()),
        VarCharBox::from_vec(b"bb".to_vec()),
        VarCharBox::from_vec(b"ccc".to_vec()),
    ];
    let mut stmt = Bindings::new(Recorder::refusing(3));
    assert_eq!(
        cells[..].bind_input_parameters_to(&mut stmt),
        Err(Error::Diagnostics { record: refusal(3) })
    );
    assert_eq!(stmt.into_statement().calls, vec![input(1, b"a", 1), input(2, b"bb", 2)]);

    let mut stmt = Bindings::new(Recorder::refusing(1));
    assert_eq!(
        cells[..].bind_input_parameters_to(&mut stmt),
        Err(Error::Diagnostics { record: refusal(1) })
    );
    assert!(stmt.into_statement().calls.is_empty());
}

#[test]
fn tuple_elements_bind_themselves_where_they_are_told() {
    let a = VarCharBox::from_vec(b"a".to_vec());
    let mut b = VarCharArray::<2>::new(b"b");
    let mut stmt = Bindings::new(Recorder::new());
    assert_eq!((&a).bind_to(7, &mut stmt), Ok(()));
    assert_eq!((&mut b).bind_to(9, &mut stmt), Ok(()));
    let mut second = input(9, b"b\0", 1);
    second.output = true;
    assert_eq!(stmt.into_statement().calls, vec![input(7, b"a", 1), second]);
}

#[test]
fn statement_can_be_lent() {
    let cells = [VarCharBox::from_vec(b"a".to_vec()), VarCharBox::from_vec(b"bb".to_vec())];
    let mut recorder = Recorder::new();
    let mut stmt = Bindings::new(&mut recorder);
    assert_eq!(cells[..].bind_input_parameters_to(&mut stmt), Ok(()));
    let mut stmt = Bindings::new(&mut recorder);
    assert_eq!((&cells[0],).bind_parameters_to(&mut stmt), Ok(()));
    assert_eq!(recorder.calls, vec![input(1, b"a", 1), input(2, b"bb", 2), input(1, b"a", 1)]);
}

#[test]
fn binary_cells_are_bound_as_binary() {
    let cell = VarBinaryBox::from_vec(vec![1, 2, 3]);
    let mut stmt = Bindings::new(Recorder::new());
    assert_eq!(cell.bind_input_parameters_to(&mut stmt), Ok(()));
    assert_eq!(
        stmt.into_statement().calls,
        vec![Call {
            position: 1,
            output: false,
            c_data_type: odbc_sys::CDataType::Binary,
            data_type: DataType::Varbinary { length: 3 },
            buffer_length: 3,
            value: vec![1, 2, 3],
            indicator: 3,
        }]
    );
}
