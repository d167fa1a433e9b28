//! Custom parsing.
//!
//! See [`Custom`].

use vstd::prelude::*;

verus! {

use crate::parse::Parse;
use crate::parse::result_deep_view;
use vstd::string::StrSliceExecFns;

/// Use [`Custom`] to override the standard parsing implementation for your
/// type.
///
/// Coherence forbids implementing [`Parse`] for a type of another crate;
/// implementing [`FromStr`] for a locally defined type is always possible,
/// and `Custom` then adapts that implementation to [`Parse`]: parsing
/// through `Custom<T>` delegates to `T`'s override conversion and wraps the
/// converted value, which the caller destructures to obtain the inner
/// value.
pub struct Custom<T>(pub T);

impl<T: DeepView> DeepView for Custom<T> {
    type V = Custom<<T as DeepView>::V>;

    open spec fn deep_view(&self) -> Custom<<T as DeepView>::V> {
        Custom(self.0.deep_view())
    }
}

/// A custom [`FromStr`] trait to enable customization of value parsing.
///
/// Implement this trait for any type that you want to override the parsing
/// for. It has the same shape as [`Parse`]: a specification of what a piece
/// of text converts to, and a conversion held to it.
pub trait FromStr: Sized + DeepView {
    /// The error reported when the text does not convert.
    type Err: DeepView;

    /// What converting `s` yields, stated over views.
    spec fn spec_from_str(s: Seq<char>) -> Result<
        <Self as DeepView>::V,
        <Self::Err as DeepView>::V,
    >;

    /// Convert `s` into a value of `Self`, or report why it does not.
    fn from_str(s: &str) -> (r: Result<Self, Self::Err>)
        ensures
            result_deep_view(r) == Self::spec_from_str(s@),
    ;
}

impl<T: FromStr> Parse for Custom<T> {
    type Err = <T as FromStr>::Err;

    open spec fn spec_from_str(s: Seq<char>) -> Result<
        Custom<<T as DeepView>::V>,
        <<T as FromStr>::Err as DeepView>::V,
    > {
        match <T as FromStr>::spec_from_str(s) {
            Ok(v) => Ok(Custom(v)),
            Err(e) => Err(e),
        }
    }

    fn from_str(s: &str) -> (r: Result<Custom<T>, <T as FromStr>::Err>) {
        match <T as FromStr>::from_str(s) {
            Ok(v) => Ok(Custom(v)),
            Err(e) => Err(e),
        }
    }
}

/// A worked example of the override capability: a number written as the
/// word `one` or `two`. Retrieve it as `Custom<OneOrTwo>`.
#[derive(Debug, Clone, Copy, PartialEq, Eq, Structural)]
pub struct OneOrTwo {
    /// The number the word names.
    pub value: u8,
}

impl DeepView for OneOrTwo {
    type V = OneOrTwo;

    open spec fn deep_view(&self) -> OneOrTwo {
        *self
    }
}

impl FromStr for OneOrTwo {
    type Err = &'static str;

    open spec fn spec_from_str(s: Seq<char>) -> Result<OneOrTwo, Seq<char>> {
        if s == seq!['o', 'n', 'e'] {
            Ok(OneOrTwo { value: 1 })
        } else if s == seq!['t', 'w', 'o'] {
            Ok(OneOrTwo { value: 2 })
        } else {
            Err("not \"one\" or \"two\""@)
        }
    }

    fn from_str(s: &str) -> (r: Result<OneOrTwo, &'static str>) {
        let len = s.unicode_len();
        if len == 3 && s.get_char(0) == 'o' && s.get_char(1) == 'n' && s.get_char(2) == 'e' {
            proof {
                assert(s@ =~= seq!['o', 'n', 'e']);
            }
            Ok(OneOrTwo { value: 1 })
        } else if len == 3 && s.get_char(0) == 't' && s.get_char(1) == 'w' && s.get_char(2) == 'o' {
            proof {
                assert(s@ =~= seq!['t', 'w', 'o']);
            }
            Ok(OneOrTwo { value: 2 })
        } else {
            Err("not \"one\" or \"two\"")
        }
    }
}

/// Parsing through [`Custom`] delegates to the override conversion: a
/// value the override accepts comes back wrapped, and an error comes back
/// unchanged.
pub proof fn law_custom_delegates<T: FromStr>(s: Seq<char>)
    ensures
        <T as FromStr>::spec_from_str(s) matches Ok(v) ==> (<Custom<T> as Parse>::spec_from_str(
            s,
        ) matches Ok(c) && c == Custom(v)),
        <T as FromStr>::spec_from_str(s) matches Err(e) ==> (<Custom<T> as Parse>::spec_from_str(
            s,
        ) matches Err(w) && w == e),
{
}

}
