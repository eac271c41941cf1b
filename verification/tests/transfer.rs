use rsvg_core::number::Number;
use rsvg_core::transfer::AttributeName;
use rsvg_core::transfer::Channel;
use rsvg_core::transfer::ElementError;
use rsvg_core::transfer::FeFunc;
use rsvg_core::transfer::FuncAttribute;
use rsvg_core::transfer::FunctionParameters;
use rsvg_core::transfer::FunctionType;

fn num(value: f64) -> Number {
    Number::from_bits(value.to_bits())
}

fn val(number: Number) -> f64 {
    f64::from_bits(number.to_bits())
}

fn nums(values: &[f64]) -> Vec<Number> {
    values.iter().map(|v| num(*v)).collect()
}

fn parameters(table_values: &[f64]) -> FunctionParameters {
    FunctionParameters {
        table_values: nums(table_values),
        slope: num(1.0),
        intercept: num(0.0),
        amplitude: num(1.0),
        exponent: num(1.0),
        offset: num(0.0),
    }
}

fn func_with(attributes: Vec<FuncAttribute>) -> FeFunc {
    let mut func = FeFunc::new(Channel::R);
    func.set_attributes(&attributes).unwrap();
    func
}

#[test]
fn keywords_name_the_five_families() {
    assert_eq!(FunctionType::parse("identity"), Ok(FunctionType::Identity));
    assert_eq!(FunctionType::parse("table"), Ok(FunctionType::Table));
    assert_eq!(FunctionType::parse("discrete"), Ok(FunctionType::Discrete));
    assert_eq!(FunctionType::parse("linear"), Ok(FunctionType::Linear));
    assert_eq!(FunctionType::parse("gamma"), Ok(FunctionType::Gamma));
}

#[test]
fn keywords_ignore_case_and_outer_space() {
    assert_eq!(FunctionType::parse("TABLE"), Ok(FunctionType::Table));
    assert_eq!(FunctionType::parse("Gamma"), Ok(FunctionType::Gamma));
    assert_eq!(FunctionType::parse("  linear\t\n"), Ok(FunctionType::Linear));
    assert_eq!(FunctionType::parse("\r\x0cdiScReTe "), Ok(FunctionType::Discrete));
}

#[test]
fn other_texts_are_refused() {
    for text in [
        "", " ", "tabel", "tables", "tab le", "identity linear", "1", "gamma;", "\u{a0}table",
        "tabl\u{e9}", "t\u{212a}ble", "\u{130}dentity", "line\u{e4}r",
    ] {
        assert!(FunctionType::parse(text).is_err(), "{:?}", text);
    }
}

#[test]
fn attribute_names_are_matched_letter_for_letter() {
    assert_eq!(AttributeName::parse("type"), Some(AttributeName::Type));
    assert_eq!(AttributeName::parse("tableValues"), Some(AttributeName::TableValues));
    assert_eq!(AttributeName::parse("slope"), Some(AttributeName::Slope));
    assert_eq!(AttributeName::parse("intercept"), Some(AttributeName::Intercept));
    assert_eq!(AttributeName::parse("amplitude"), Some(AttributeName::Amplitude));
    assert_eq!(AttributeName::parse("exponent"), Some(AttributeName::Exponent));
    assert_eq!(AttributeName::parse("offset"), Some(AttributeName::Offset));
    assert_eq!(AttributeName::parse("tablevalues"), None);
    assert_eq!(AttributeName::parse("Type"), None);
    assert_eq!(AttributeName::parse(" slope"), None);
    assert_eq!(AttributeName::parse("id"), None);
    assert_eq!(AttributeName::parse(""), None);
    assert_eq!(AttributeName::parse("offs\u{e9}t"), None);
}

#[test]
fn attribute_knows_its_name() {
    assert_eq!(FuncAttribute::Type(String::from("x")).name(), AttributeName::Type);
    assert_eq!(FuncAttribute::TableValues(None).name(), AttributeName::TableValues);
    assert_eq!(FuncAttribute::Slope(None).name(), AttributeName::Slope);
    assert_eq!(FuncAttribute::Intercept(None).name(), AttributeName::Intercept);
    assert_eq!(FuncAttribute::Amplitude(None).name(), AttributeName::Amplitude);
    assert_eq!(FuncAttribute::Exponent(None).name(), AttributeName::Exponent);
    assert_eq!(FuncAttribute::Offset(None).name(), AttributeName::Offset);
}

#[test]
fn new_function_has_the_defaults() {
    for channel in [Channel::R, Channel::G, Channel::B, Channel::A] {
        let func = FeFunc::new(channel);
        assert_eq!(func.channel(), channel);
        assert_eq!(func.function_type(), FunctionType::Identity);
        let params = func.function_parameters();
        assert!(params.table_values.is_empty());
        assert_eq!(val(params.slope), 1.0);
        assert_eq!(val(params.intercept), 0.0);
        assert_eq!(val(params.amplitude), 1.0);
        assert_eq!(val(params.exponent), 1.0);
        assert_eq!(val(params.offset), 0.0);
    }
}

#[test]
fn attributes_are_set() {
    let mut func = FeFunc::new(Channel::B);
    let outcome = func.set_attributes(&vec![
        FuncAttribute::Type(String::from("gamma")),
        FuncAttribute::TableValues(Some(nums(&[0.25, 0.75]))),
        FuncAttribute::Slope(Some(num(2.0))),
        FuncAttribute::Intercept(Some(num(0.1))),
        FuncAttribute::Amplitude(Some(num(3.0))),
        FuncAttribute::Exponent(Some(num(4.0))),
        FuncAttribute::Offset(Some(num(-5.0))),
    ]);
    assert_eq!(outcome, Ok(()));
    assert_eq!(func.channel(), Channel::B);
    assert_eq!(func.function_type(), FunctionType::Gamma);
    let params = func.function_parameters();
    assert_eq!(params.table_values, nums(&[0.25, 0.75]));
    assert_eq!(val(params.slope), 2.0);
    assert_eq!(val(params.intercept), 0.1);
    assert_eq!(val(params.amplitude), 3.0);
    assert_eq!(val(params.exponent), 4.0);
    assert_eq!(val(params.offset), -5.0);
}

#[test]
fn no_attributes_change_nothing() {
    let mut func = func_with(vec![
        FuncAttribute::Type(String::from("linear")),
        FuncAttribute::Slope(Some(num(2.0))),
    ]);
    assert_eq!(func.set_attributes(&vec![]), Ok(()));
    assert_eq!(func.function_type(), FunctionType::Linear);
    assert_eq!(val(func.function_parameters().slope), 2.0);
}

#[test]
fn later_attribute_overrides_earlier() {
    let func = func_with(vec![
        FuncAttribute::Slope(Some(num(2.0))),
        FuncAttribute::Type(String::from("table")),
        FuncAttribute::TableValues(Some(nums(&[1.0]))),
        FuncAttribute::Slope(Some(num(7.0))),
        FuncAttribute::Type(String::from("linear")),
    ]);
    assert_eq!(func.function_type(), FunctionType::Linear);
    assert_eq!(val(func.function_parameters().slope), 7.0);
    assert_eq!(func.function_parameters().table_values, nums(&[1.0]));
}

#[test]
fn table_without_values_is_identity() {
    let func = func_with(vec![FuncAttribute::Type(String::from("table"))]);
    assert_eq!(func.function_type(), FunctionType::Identity);
    let func = func_with(vec![
        FuncAttribute::Type(String::from("table")),
        FuncAttribute::TableValues(Some(vec![])),
    ]);
    assert_eq!(func.function_type(), FunctionType::Identity);
    let func = func_with(vec![
        FuncAttribute::TableValues(Some(nums(&[0.5]))),
        FuncAttribute::Type(String::from("table")),
        FuncAttribute::TableValues(Some(vec![])),
    ]);
    assert_eq!(func.function_type(), FunctionType::Identity);
}

#[test]
fn discrete_without_values_is_identity() {
    let func = func_with(vec![FuncAttribute::Type(String::from("discrete"))]);
    assert_eq!(func.function_type(), FunctionType::Identity);
    assert!(func.function_parameters().table_values.is_empty());
}

#[test]
fn table_and_discrete_with_values_stay() {
    let func = func_with(vec![
        FuncAttribute::Type(String::from("table")),
        FuncAttribute::TableValues(Some(nums(&[0.0, 1.0]))),
    ]);
    assert_eq!(func.function_type(), FunctionType::Table);
    let func = func_with(vec![
        FuncAttribute::TableValues(Some(nums(&[0.0]))),
        FuncAttribute::Type(String::from("discrete")),
    ]);
    assert_eq!(func.function_type(), FunctionType::Discrete);
}

#[test]
fn linear_and_gamma_without_values_stay() {
    let func = func_with(vec![FuncAttribute::Type(String::from("linear"))]);
    assert_eq!(func.function_type(), FunctionType::Linear);
    let func = func_with(vec![FuncAttribute::Type(String::from("gamma"))]);
    assert_eq!(func.function_type(), FunctionType::Gamma);
}

#[test]
fn emptied_table_of_a_set_function_becomes_identity() {
    let mut func = func_with(vec![
        FuncAttribute::Type(String::from("discrete")),
        FuncAttribute::TableValues(Some(nums(&[0.0, 1.0]))),
    ]);
    assert_eq!(func.function_type(), FunctionType::Discrete);
    assert_eq!(func.set_attributes(&vec![FuncAttribute::TableValues(Some(vec![]))]), Ok(()));
    assert_eq!(func.function_type(), FunctionType::Identity);
}

#[test]
fn unknown_type_is_refused() {
    let mut func = FeFunc::new(Channel::G);
    let outcome = func.set_attributes(&vec![
        FuncAttribute::Slope(Some(num(4.0))),
        FuncAttribute::Type(String::from("cubic")),
        FuncAttribute::Intercept(Some(num(9.0))),
    ]);
    assert_eq!(outcome, Err(ElementError { attribute: AttributeName::Type }));
    let params = func.function_parameters();
    assert_eq!(val(params.slope), 4.0);
    assert_eq!(val(params.intercept), 0.0);
    assert_eq!(func.function_type(), FunctionType::Identity);
}

#[test]
fn each_numeric_attribute_can_be_refused() {
    let cases = vec![
        (FuncAttribute::TableValues(None), AttributeName::TableValues),
        (FuncAttribute::Slope(None), AttributeName::Slope),
        (FuncAttribute::Intercept(None), AttributeName::Intercept),
        (FuncAttribute::Amplitude(None), AttributeName::Amplitude),
        (FuncAttribute::Exponent(None), AttributeName::Exponent),
        (FuncAttribute::Offset(None), AttributeName::Offset),
    ];
    for (attribute, name) in cases {
        let mut func = FeFunc::new(Channel::A);
        let outcome = func.set_attributes(&vec![attribute]);
        assert_eq!(outcome, Err(ElementError { attribute: name }));
    }
}

#[test]
fn first_refusal_is_reported() {
    let mut func = FeFunc::new(Channel::A);
    let outcome = func.set_attributes(&vec![
        FuncAttribute::Offset(None),
        FuncAttribute::Type(String::from("nothing")),
    ]);
    assert_eq!(outcome, Err(ElementError { attribute: AttributeName::Offset }));
}

#[test]
fn refused_run_still_resolves_the_degenerate_case() {
    let mut func = FeFunc::new(Channel::R);
    let outcome = func.set_attributes(&vec![
        FuncAttribute::Type(String::from("table")),
        FuncAttribute::Slope(None),
        FuncAttribute::TableValues(Some(nums(&[1.0]))),
    ]);
    assert_eq!(outcome, Err(ElementError { attribute: AttributeName::Slope }));
    assert_eq!(func.function_type(), FunctionType::Identity);
    assert!(func.function_parameters().table_values.is_empty());
}

#[test]
fn duplicate_holds_the_same() {
    let func = func_with(vec![
        FuncAttribute::Type(String::from("table")),
        FuncAttribute::TableValues(Some(nums(&[0.0, 0.5, 1.0]))),
        FuncAttribute::Offset(Some(num(0.25))),
    ]);
    let copy = func.duplicate();
    assert_eq!(copy.channel(), Channel::R);
    assert_eq!(copy.function_type(), FunctionType::Table);
    assert_eq!(copy.function_parameters().table_values, nums(&[0.0, 0.5, 1.0]));
    assert_eq!(val(copy.function_parameters().offset), 0.25);
    assert_eq!(copy.parameters().table_values, func.parameters().table_values);
    let snapshot = func.parameters().duplicate();
    assert_eq!(snapshot.table_values, nums(&[0.0, 0.5, 1.0]));
    assert_eq!(val(snapshot.offset), 0.25);
    assert_eq!(parameters(&[2.0]).duplicate().table_values, nums(&[2.0]));
}
