//! Transfer function elements: their channel, the family of their function,
//! their parameters, and the attributes that set them.

use crate::number::Number;
use crate::text::lemma_not_ascii_matches_no_word;
use crate::text::matches_word;
use crate::text::same_ignoring_case;
use crate::text::same_text;
use crate::text::trim_ascii;
use crate::text::trimmed;
use vstd::prelude::*;

verus! {

/// The pixel components that a transfer function can act on.
#[derive(Clone, Copy, Debug, PartialEq, Eq, Structural)]
pub enum Channel {
    R,
    G,
    B,
    A,
}

/// The families of transfer functions.
#[derive(Clone, Copy, Debug, PartialEq, Eq, Structural)]
pub enum FunctionType {
    Identity,
    Table,
    Discrete,
    Linear,
    Gamma,
}

/// A text that names no value of the kind that was asked for.
#[derive(Clone, Copy, Debug, PartialEq, Eq, Structural)]
pub struct ParseError {}

/// The family that a keyword names: one of `identity`, `table`, `discrete`,
/// `linear` and `gamma`, in any case of the letters, with white space allowed
/// at both ends.
pub open spec fn keyword_type(text: Seq<char>) -> Option<FunctionType> {
    let word = trimmed(text);
    if same_ignoring_case(word, "identity"@) {
        Some(FunctionType::Identity)
    } else if same_ignoring_case(word, "table"@) {
        Some(FunctionType::Table)
    } else if same_ignoring_case(word, "discrete"@) {
        Some(FunctionType::Discrete)
    } else if same_ignoring_case(word, "linear"@) {
        Some(FunctionType::Linear)
    } else if same_ignoring_case(word, "gamma"@) {
        Some(FunctionType::Gamma)
    } else {
        None
    }
}

impl FunctionType {
    /// Reads the keyword of a function family. Any other text is refused.
    pub fn parse(text: &str) -> (parsed: Result<FunctionType, ParseError>)
        ensures
            match keyword_type(text@) {
                Some(kind) => parsed == Ok::<FunctionType, ParseError>(kind),
                None => parsed is Err,
            },
    {
        proof {
            reveal_strlit("identity");
            reveal_strlit("table");
            reveal_strlit("discrete");
            reveal_strlit("linear");
            reveal_strlit("gamma");
        }
        if !text.is_ascii() {
            proof {
                lemma_not_ascii_matches_no_word(text@, "identity"@);
                lemma_not_ascii_matches_no_word(text@, "table"@);
                lemma_not_ascii_matches_no_word(text@, "discrete"@);
                lemma_not_ascii_matches_no_word(text@, "linear"@);
                lemma_not_ascii_matches_no_word(text@, "gamma"@);
            }
            return Err(ParseError {  });
        }
        let (start, end) = trim_ascii(text);
        if matches_word(text, start, end, "identity") {
            Ok(FunctionType::Identity)
        } else if matches_word(text, start, end, "table") {
            Ok(FunctionType::Table)
        } else if matches_word(text, start, end, "discrete") {
            Ok(FunctionType::Discrete)
        } else if matches_word(text, start, end, "linear") {
            Ok(FunctionType::Linear)
        } else if matches_word(text, start, end, "gamma") {
            Ok(FunctionType::Gamma)
        } else {
            Err(ParseError {  })
        }
    }
}

/// The attributes that a transfer function element recognizes.
#[derive(Clone, Copy, Debug, PartialEq, Eq, Structural)]
pub enum AttributeName {
    Type,
    TableValues,
    Slope,
    Intercept,
    Amplitude,
    Exponent,
    Offset,
}

/// The attribute that a name in the markup denotes, if any. Names are
/// compared letter for letter.
pub open spec fn named_attribute(name: Seq<char>) -> Option<AttributeName> {
    if name == "type"@ {
        Some(AttributeName::Type)
    } else if name == "tableValues"@ {
        Some(AttributeName::TableValues)
    } else if name == "slope"@ {
        Some(AttributeName::Slope)
    } else if name == "intercept"@ {
        Some(AttributeName::Intercept)
    } else if name == "amplitude"@ {
        Some(AttributeName::Amplitude)
    } else if name == "exponent"@ {
        Some(AttributeName::Exponent)
    } else if name == "offset"@ {
        Some(AttributeName::Offset)
    } else {
        None
    }
}

impl AttributeName {
    /// Recognizes the name of an attribute. A name that is not recognized is
    /// one that a transfer function element ignores.
    pub fn parse(name: &str) -> (attribute: Option<AttributeName>)
        ensures
            attribute == named_attribute(name@),
    {
        if same_text(name, "type") {
            Some(AttributeName::Type)
        } else if same_text(name, "tableValues") {
            Some(AttributeName::TableValues)
        } else if same_text(name, "slope") {
            Some(AttributeName::Slope)
        } else if same_text(name, "intercept") {
            Some(AttributeName::Intercept)
        } else if same_text(name, "amplitude") {
            Some(AttributeName::Amplitude)
        } else if same_text(name, "exponent") {
            Some(AttributeName::Exponent)
        } else if same_text(name, "offset") {
            Some(AttributeName::Offset)
        } else {
            None
        }
    }
}

/// One attribute of a transfer function element, as the reader of the markup
/// hands it on: the keyword of `type` as text, and for each numeric attribute
/// the number or the list of numbers that its text denotes, or `None` where
/// the text denotes none.
#[derive(Debug)]
pub enum FuncAttribute {
    Type(String),
    TableValues(Option<Vec<Number>>),
    Slope(Option<Number>),
    Intercept(Option<Number>),
    Amplitude(Option<Number>),
    Exponent(Option<Number>),
    Offset(Option<Number>),
}

impl FuncAttribute {
    /// The name of the attribute.
    pub open spec fn spec_name(self) -> AttributeName {
        match self {
            FuncAttribute::Type(_) => AttributeName::Type,
            FuncAttribute::TableValues(_) => AttributeName::TableValues,
            FuncAttribute::Slope(_) => AttributeName::Slope,
            FuncAttribute::Intercept(_) => AttributeName::Intercept,
            FuncAttribute::Amplitude(_) => AttributeName::Amplitude,
            FuncAttribute::Exponent(_) => AttributeName::Exponent,
            FuncAttribute::Offset(_) => AttributeName::Offset,
        }
    }

    /// The name of the attribute.
    pub fn name(&self) -> (name: AttributeName)
        ensures
            name == self.spec_name(),
    {
        match self {
            FuncAttribute::Type(_) => AttributeName::Type,
            FuncAttribute::TableValues(_) => AttributeName::TableValues,
            FuncAttribute::Slope(_) => AttributeName::Slope,
            FuncAttribute::Intercept(_) => AttributeName::Intercept,
            FuncAttribute::Amplitude(_) => AttributeName::Amplitude,
            FuncAttribute::Exponent(_) => AttributeName::Exponent,
            FuncAttribute::Offset(_) => AttributeName::Offset,
        }
    }
}

/// An attribute whose value was refused.
#[derive(Clone, Copy, Debug, PartialEq, Eq, Structural)]
pub struct ElementError {
    pub attribute: AttributeName,
}

/// The parameters of a transfer function, whatever its family.
#[derive(Debug)]
pub struct FunctionParameters {
    pub table_values: Vec<Number>,
    pub slope: Number,
    pub intercept: Number,
    pub amplitude: Number,
    pub exponent: Number,
    pub offset: Number,
}

impl FunctionParameters {
    /// A copy of the parameters.
    pub fn duplicate(&self) -> (copy: FunctionParameters)
        ensures
            copy.table_values@ == self.table_values@,
            copy.slope == self.slope,
            copy.intercept == self.intercept,
            copy.amplitude == self.amplitude,
            copy.exponent == self.exponent,
            copy.offset == self.offset,
    {
        FunctionParameters {
            table_values: copy_numbers(&self.table_values),
            slope: self.slope,
            intercept: self.intercept,
            amplitude: self.amplitude,
            exponent: self.exponent,
            offset: self.offset,
        }
    }
}

/// What a transfer function element holds: its channel, the family of its
/// function, and the parameters.
pub struct FeFuncView {
    pub channel: Channel,
    pub function_type: FunctionType,
    pub table_values: Seq<Number>,
    pub slope: Number,
    pub intercept: Number,
    pub amplitude: Number,
    pub exponent: Number,
    pub offset: Number,
}

impl FeFuncView {
    /// Whether these are the parameters of the function.
    pub open spec fn holds(self, parameters: FunctionParameters) -> bool {
        &&& parameters.table_values@ == self.table_values
        &&& parameters.slope == self.slope
        &&& parameters.intercept == self.intercept
        &&& parameters.amplitude == self.amplitude
        &&& parameters.exponent == self.exponent
        &&& parameters.offset == self.offset
    }
}

/// The transfer function of a channel for which the markup gives none: the
/// identity, with no table, slope one, intercept zero, amplitude one,
/// exponent one and offset zero.
pub open spec fn default_func(channel: Channel) -> FeFuncView {
    FeFuncView {
        channel,
        function_type: FunctionType::Identity,
        table_values: Seq::empty(),
        slope: Number { bits: crate::number::ONE_BITS },
        intercept: Number { bits: 0 },
        amplitude: Number { bits: crate::number::ONE_BITS },
        exponent: Number { bits: crate::number::ONE_BITS },
        offset: Number { bits: 0 },
    }
}

/// A table or discrete function without table values: it has no entry to
/// select, and stands for the identity.
pub open spec fn is_degenerate(func: FeFuncView) -> bool {
    (func.function_type is Table || func.function_type is Discrete) && func.table_values.len()
        == 0
}

/// The function with the degenerate case resolved: a table or discrete
/// function without table values becomes the identity.
pub open spec fn normalized(func: FeFuncView) -> FeFuncView {
    if is_degenerate(func) {
        FeFuncView { function_type: FunctionType::Identity, ..func }
    } else {
        func
    }
}

/// The function after one attribute was set, or `None` where the value of the
/// attribute is refused.
pub open spec fn apply_attribute(func: FeFuncView, attribute: FuncAttribute) -> Option<
    FeFuncView,
> {
    match attribute {
        FuncAttribute::Type(text) => match keyword_type(text@) {
            Some(kind) => Some(FeFuncView { function_type: kind, ..func }),
            None => None,
        },
        FuncAttribute::TableValues(Some(values)) => Some(
            FeFuncView { table_values: values@, ..func },
        ),
        FuncAttribute::Slope(Some(value)) => Some(FeFuncView { slope: value, ..func }),
        FuncAttribute::Intercept(Some(value)) => Some(FeFuncView { intercept: value, ..func }),
        FuncAttribute::Amplitude(Some(value)) => Some(FeFuncView { amplitude: value, ..func }),
        FuncAttribute::Exponent(Some(value)) => Some(FeFuncView { exponent: value, ..func }),
        FuncAttribute::Offset(Some(value)) => Some(FeFuncView { offset: value, ..func }),
        _ => None,
    }
}

/// A function after a run of attributes, with the attribute that ended the
/// run by being refused, if one did.
pub struct Applied {
    pub func: FeFuncView,
    pub refused: Option<AttributeName>,
}

/// Sets the attributes in their order, up to the first whose value is
/// refused. Of an attribute that occurs twice the later value stands.
pub open spec fn apply_attributes(func: FeFuncView, attributes: Seq<FuncAttribute>) -> Applied
    decreases attributes.len(),
{
    if attributes.len() == 0 {
        Applied { func, refused: None }
    } else {
        match apply_attribute(func, attributes[0]) {
            Some(next) => apply_attributes(next, attributes.drop_first()),
            None => Applied { func, refused: Some(attributes[0].spec_name()) },
        }
    }
}

/// Whatever attributes are set on whatever function, once the degenerate
/// case is resolved the function is not degenerate: a table or discrete
/// function that the attributes leave without table values has become the
/// identity, and every other function is as the attributes left it.
pub proof fn lemma_degenerate_becomes_identity(func: FeFuncView, attributes: Seq<FuncAttribute>)
    ensures
        ({
            let set = apply_attributes(func, attributes).func;
            &&& !is_degenerate(normalized(set))
            &&& is_degenerate(set) ==> normalized(set).function_type is Identity
            &&& !is_degenerate(set) ==> normalized(set) == set
        }),
{
}

/// The transfer function element of one channel.
///
/// No element is ever degenerate: a table or discrete function always has
/// table values.
pub struct FeFunc {
    channel: Channel,
    function_type: FunctionType,
    parameters: FunctionParameters,
}

impl View for FeFunc {
    type V = FeFuncView;

    closed spec fn view(&self) -> FeFuncView {
        FeFuncView {
            channel: self.channel,
            function_type: self.function_type,
            table_values: self.parameters.table_values@,
            slope: self.parameters.slope,
            intercept: self.parameters.intercept,
            amplitude: self.parameters.amplitude,
            exponent: self.parameters.exponent,
            offset: self.parameters.offset,
        }
    }
}

fn copy_numbers(values: &Vec<Number>) -> (copy: Vec<Number>)
    ensures
        copy@ == values@,
{
    let mut copy: Vec<Number> = Vec::new();
    let mut i: usize = 0;
    while i < values.len()
        invariant
            i <= values@.len(),
            copy@ == values@.take(i as int),
        decreases values@.len() - i,
    {
        copy.push(values[i]);
        assert(values@.take(i + 1) == values@.take(i as int).push(values@[i as int]));
        i += 1;
    }
    assert(values@.take(values@.len() as int) == values@);
    copy
}

impl FeFunc {
    #[verifier::type_invariant]
    spec fn inv(self) -> bool {
        !is_degenerate(self@)
    }

    /// The element of a channel with every attribute at its default.
    pub fn new(channel: Channel) -> (func: FeFunc)
        ensures
            func@ == default_func(channel),
    {
        FeFunc {
            channel,
            function_type: FunctionType::Identity,
            parameters: FunctionParameters {
                table_values: Vec::new(),
                slope: Number::one(),
                intercept: Number::zero(),
                amplitude: Number::one(),
                exponent: Number::one(),
                offset: Number::zero(),
            },
        }
    }

    /// The channel that the function acts on.
    pub fn channel(&self) -> (channel: Channel)
        ensures
            channel == self@.channel,
    {
        self.channel
    }

    /// The family of the function. It is a table or discrete function only
    /// where there are table values.
    pub fn function_type(&self) -> (kind: FunctionType)
        ensures
            kind == self@.function_type,
            !is_degenerate(self@),
    {
        proof {
            use_type_invariant(self);
        }
        self.function_type
    }

    /// The parameters of the function. Those of a table or discrete function
    /// hold at least one table value.
    pub fn parameters(&self) -> (parameters: &FunctionParameters)
        ensures
            self@.holds(*parameters),
            !is_degenerate(self@),
    {
        proof {
            use_type_invariant(self);
        }
        &self.parameters
    }

    /// A snapshot of the parameters of the function.
    pub fn function_parameters(&self) -> (parameters: FunctionParameters)
        ensures
            self@.holds(parameters),
            !is_degenerate(self@),
    {
        proof {
            use_type_invariant(self);
        }
        self.parameters.duplicate()
    }

    /// A copy of the element.
    pub fn duplicate(&self) -> (copy: FeFunc)
        ensures
            copy@ == self@,
            !is_degenerate(copy@),
    {
        proof {
            use_type_invariant(self);
        }
        FeFunc {
            channel: self.channel,
            function_type: self.function_type,
            parameters: self.parameters.duplicate(),
        }
    }

    /// Sets the attributes of the element in their order and then resolves
    /// the degenerate case: a table or discrete function that is left without
    /// table values becomes the identity.
    ///
    /// The first attribute whose value is refused ends the run and is
    /// reported; the attributes before it stay set, and the degenerate case
    /// is resolved all the same.
    pub fn set_attributes(&mut self, attributes: &Vec<FuncAttribute>) -> (outcome: Result<
        (),
        ElementError,
    >)
        ensures
            final(self)@ == normalized(apply_attributes(old(self)@, attributes@).func),
            is_degenerate(apply_attributes(old(self)@, attributes@).func) ==> final(self)@
                .function_type == FunctionType::Identity,
            !is_degenerate(final(self)@),
            match apply_attributes(old(self)@, attributes@).refused {
                Some(name) => outcome == Err::<(), ElementError>(ElementError { attribute: name }),
                None => outcome is Ok,
            },
    {
        let channel = self.channel;
        let mut function_type = self.function_type;
        let mut table_values: Vec<Number> = copy_numbers(&self.parameters.table_values);
        let mut slope = self.parameters.slope;
        let mut intercept = self.parameters.intercept;
        let mut amplitude = self.parameters.amplitude;
        let mut exponent = self.parameters.exponent;
        let mut offset = self.parameters.offset;
        let mut refused: Option<AttributeName> = None;

        let ghost start = self@;
        let ghost mut current = self@;
        let mut i: usize = 0;
        assert(attributes@.skip(0) == attributes@);
        while i < attributes.len() && refused.is_none()
            invariant
                i <= attributes@.len(),
                current == (FeFuncView {
                    channel,
                    function_type,
                    table_values: table_values@,
                    slope,
                    intercept,
                    amplitude,
                    exponent,
                    offset,
                }),
                refused is None ==> apply_attributes(start, attributes@) == apply_attributes(
                    current,
                    attributes@.skip(i as int),
                ),
                refused is Some ==> apply_attributes(start, attributes@) == (Applied {
                    func: current,
                    refused,
                }),
            decreases attributes@.len() - i,
        {
            let ghost rest = attributes@.skip(i as int);
            assert(rest[0] == attributes@[i as int]);
            assert(rest.drop_first() == attributes@.skip(i + 1));
            let accepted = match &attributes[i] {
                FuncAttribute::Type(text) => match FunctionType::parse(text.as_str()) {
                    Ok(kind) => {
                        function_type = kind;
                        true
                    },
                    Err(_) => false,
                },
                FuncAttribute::TableValues(Some(values)) => {
                    table_values = copy_numbers(values);
                    true
                },
                FuncAttribute::Slope(Some(value)) => {
                    slope = *value;
                    true
                },
                FuncAttribute::Intercept(Some(value)) => {
                    intercept = *value;
                    true
                },
                FuncAttribute::Amplitude(Some(value)) => {
                    amplitude = *value;
                    true
                },
                FuncAttribute::Exponent(Some(value)) => {
                    exponent = *value;
                    true
                },
                FuncAttribute::Offset(Some(value)) => {
                    offset = *value;
                    true
                },
                _ => false,
            };
            if !accepted {
                refused = Some(attributes[i].name());
            }
            proof {
                if refused is None {
                    current = apply_attribute(current, attributes@[i as int])->0;
                }
            }
            i += 1;
        }
        proof {
            if refused is None {
                assert(attributes@.skip(i as int).len() == 0);
            }
        }

        // The table function type with empty table values is considered
        // an identity function.
        match function_type {
            FunctionType::Table | FunctionType::Discrete => {
                if table_values.len() == 0 {
                    function_type = FunctionType::Identity;
                }
            },
            _ => {},
        }

        *self = FeFunc {
            channel,
            function_type,
            parameters: FunctionParameters {
                table_values,
                slope,
                intercept,
                amplitude,
                exponent,
                offset,
            },
        };
        match refused {
            Some(name) => Err(ElementError { attribute: name }),
            None => Ok(()),
        }
    }
}

/// The transfer functions of the four channels of a primitive.
pub struct Functions {
    pub r: FeFunc,
    pub g: FeFunc,
    pub b: FeFunc,
    pub a: FeFunc,
}

/// What the transfer functions of the four channels hold.
pub struct FunctionsView {
    pub r: FeFuncView,
    pub g: FeFuncView,
    pub b: FeFuncView,
    pub a: FeFuncView,
}

impl View for Functions {
    type V = FunctionsView;

    open spec fn view(&self) -> FunctionsView {
        FunctionsView { r: self.r@, g: self.g@, b: self.b@, a: self.a@ }
    }
}

} // verus!
