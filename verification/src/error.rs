//! The error that a canceled token gives.

use vstd::prelude::*;

verus! {

/// `std::fmt::Formatter`: where a value writes what it shows of itself. Its
/// inside is not looked at.
#[verifier::external_type_specification]
#[verifier::external_body]
pub struct ExFormatter<'a>(std::fmt::Formatter<'a>);

/// `std::fmt::Error`: the formatter could not take what was written.
#[verifier::external_type_specification]
#[verifier::external_body]
pub struct ExFmtError(std::fmt::Error);

/// `Formatter::write_str` appends the text to what is being formatted.
/// Nothing is claimed of the formatter afterwards, nor of the result.
pub assume_specification<'a>[ std::fmt::Formatter::<'a>::write_str ](
    f: &mut std::fmt::Formatter<'a>,
    data: &str,
) -> Result<(), std::fmt::Error>;

/// The operation must cease: its token was canceled.
///
/// The value says nothing of the reason, a request or a passed deadline.
#[derive(Debug)]
pub struct Canceled {}

impl Canceled {
    /// The text by which the error describes itself.
    pub fn message(&self) -> (text: &'static str)
        ensures
            text@ == "Operation was Canceled"@,
    {
        "Operation was Canceled"
    }

    /// Turns the answer to "is it canceled?" into a `Result`: the error
    /// exactly when the answer is yes.
    pub fn check(canceled: bool) -> (r: Result<(), Canceled>)
        ensures
            r == if canceled { Err::<(), Canceled>(Canceled {  }) } else { Ok(()) },
    {
        if canceled {
            Err(Canceled {  })
        } else {
            Ok(())
        }
    }
}

impl std::fmt::Display for Canceled {
    /// Writes [`Canceled::message`].
    fn fmt(&self, f: &mut std::fmt::Formatter) -> Result<(), std::fmt::Error> {
        f.write_str(self.message())
    }
}

impl std::error::Error for Canceled {}

} // verus!
