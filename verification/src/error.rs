//! Errors reported by the library.

use vstd::prelude::*;
use vstd::string::StringExecFns;

verus! {

/// What a value must offer to be carried inside [`Error::Custom`].
pub trait CustomError: core::fmt::Display + core::fmt::Debug + Send + Sync + 'static {

}

impl<T: core::fmt::Display + core::fmt::Debug + Send + Sync + 'static> CustomError for T {

}

/// A web view error.
#[derive(Debug, PartialEq, Eq)]
pub enum Error {
    /// A required field of the builder was never set; holds the field's name.
    UninitializedField(&'static str),
    /// The platform could not create the window or its engine.
    Initialization,
    /// A string bound for the native layer holds a NUL byte; holds the
    /// position of the first one.
    NulByte(usize),
    /// The engine failed to evaluate a script.
    JsEvaluation,
    /// The engine failed to take a style sheet.
    CssInjection,
    /// A closure was dispatched to a view that is gone.
    Dispatch,
    /// An error raised by an invoke handler or a dispatched closure; holds
    /// its message.
    Custom(String),
}

/// The mathematical value of an [`Error`].
pub ghost enum ErrorView {
    UninitializedField(Seq<char>),
    Initialization,
    NulByte(nat),
    JsEvaluation,
    CssInjection,
    Dispatch,
    Custom(Seq<char>),
}

/// A web view result.
pub type WVResult<T = ()> = Result<T, Error>;

impl View for Error {
    type V = ErrorView;

    open spec fn view(&self) -> ErrorView {
        match self {
            Error::UninitializedField(name) => ErrorView::UninitializedField(name@),
            Error::Initialization => ErrorView::Initialization,
            Error::NulByte(position) => ErrorView::NulByte(*position as nat),
            Error::JsEvaluation => ErrorView::JsEvaluation,
            Error::CssInjection => ErrorView::CssInjection,
            Error::Dispatch => ErrorView::Dispatch,
            Error::Custom(message) => ErrorView::Custom(message@),
        }
    }
}

/// The value of a result that carries nothing on success.
pub open spec fn outcome_view(result: WVResult) -> Result<(), ErrorView> {
    match result {
        Ok(_) => Ok(()),
        Err(e) => Err(e@),
    }
}

/// The decimal digit for a value below ten.
pub open spec fn digit_char(value: nat) -> char {
    if value == 0 {
        '0'
    } else if value == 1 {
        '1'
    } else if value == 2 {
        '2'
    } else if value == 3 {
        '3'
    } else if value == 4 {
        '4'
    } else if value == 5 {
        '5'
    } else if value == 6 {
        '6'
    } else if value == 7 {
        '7'
    } else if value == 8 {
        '8'
    } else {
        '9'
    }
}

/// The decimal numeral of `value`, without leading zeros.
pub open spec fn decimal(value: nat) -> Seq<char>
    decreases value,
{
    if value < 10 {
        seq![digit_char(value)]
    } else {
        decimal(value / 10).push(digit_char(value % 10))
    }
}

impl ErrorView {
    /// The message that describes the error to a reader.
    pub open spec fn message(self) -> Seq<char> {
        match self {
            ErrorView::UninitializedField(name) => "Required field uninitialized: "@ + name
                + "."@,
            ErrorView::Initialization => "Webview failed to initialize."@,
            ErrorView::NulByte(position) => "nul byte found in provided data at position: "@
                + decimal(position),
            ErrorView::JsEvaluation => "Failed to evaluate JavaScript."@,
            ErrorView::CssInjection => "Failed to inject CSS."@,
            ErrorView::Dispatch => "Closure could not be dispatched. WebView was likely dropped."@,
            ErrorView::Custom(message) => "Error: "@ + message,
        }
    }
}

fn digit(value: usize) -> (r: char)
    requires
        value < 10,
    ensures
        r == digit_char(value as nat),
{
    if value == 0 {
        '0'
    } else if value == 1 {
        '1'
    } else if value == 2 {
        '2'
    } else if value == 3 {
        '3'
    } else if value == 4 {
        '4'
    } else if value == 5 {
        '5'
    } else if value == 6 {
        '6'
    } else if value == 7 {
        '7'
    } else if value == 8 {
        '8'
    } else {
        '9'
    }
}

/// Appends the decimal numeral of `value` to `out`.
fn push_decimal(out: &mut String, value: usize)
    ensures
        final(out)@ == old(out)@ + decimal(value as nat),
{
    let mut low: Vec<char> = Vec::new();
    let mut rest = value;
    while rest >= 10
        invariant
            decimal(value as nat) == decimal(rest as nat) + low@.reverse(),
        decreases rest,
    {
        let d = digit(rest % 10);
        proof {
            let grown = low@.push(d);
            assert(grown.reverse() =~= seq![d] + low@.reverse());
            assert(decimal(rest as nat) == decimal((rest / 10) as nat).push(d));
            assert(decimal((rest / 10) as nat).push(d) + low@.reverse() =~= decimal(
                (rest / 10) as nat,
            ) + grown.reverse());
        }
        low.push(d);
        rest = rest / 10;
    }
    out.push(digit(rest));
    let mut i = low.len();
    while i > 0
        invariant
            i <= low@.len(),
            rest < 10,
            out@ == old(out)@ + seq![digit_char(rest as nat)] + low@.reverse().take(
                low@.len() - i,
            ),
        decreases i,
    {
        i -= 1;
        proof {
            let turned = low@.reverse();
            let k = low@.len() - i - 1;
            assert(turned[k] == low@[i as int]);
            assert(turned.take(k + 1) =~= turned.take(k).push(turned[k]));
        }
        out.push(low[i]);
    }
    proof {
        let turned = low@.reverse();
        assert(turned.take(low@.len() as int) =~= turned);
        assert(old(out)@ + seq![digit_char(rest as nat)] + turned =~= old(out)@ + (decimal(
            rest as nat,
        ) + turned));
    }
}

impl Error {
    /// The message that describes the error to a reader.
    pub fn message(&self) -> (r: String)
        ensures
            r@ == self@.message(),
    {
        match self {
            Error::UninitializedField(name) => String::from_str(
                "Required field uninitialized: ",
            ).concat(name).concat("."),
            Error::Initialization => String::from_str("Webview failed to initialize."),
            Error::NulByte(position) => {
                let mut out = String::from_str("nul byte found in provided data at position: ");
                push_decimal(&mut out, *position);
                out
            },
            Error::JsEvaluation => String::from_str("Failed to evaluate JavaScript."),
            Error::CssInjection => String::from_str("Failed to inject CSS."),
            Error::Dispatch => String::from_str(
                "Closure could not be dispatched. WebView was likely dropped.",
            ),
            Error::Custom(message) => String::from_str("Error: ").concat(message.as_str()),
        }
    }

    /// Wraps a displayable value as a custom error whose message is the
    /// value's displayed text.
    pub fn custom<E: CustomError>(error: E) -> (r: Error)
        ensures
            match r {
                Error::Custom(message) => vstd::string::to_string_from_display_ensures::<E>(
                    &error,
                    message,
                ),
                _ => false,
            },
    {
        Error::Custom(error.to_string())
    }
}

} // verus!
