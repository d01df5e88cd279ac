//! Why a raw file could not be developed.
use vstd::prelude::*;

verus! {

/// Why a raw file could not be developed. `E` is the decoder's own error.
#[derive(Debug)]
pub enum DevelopError<E> {
    /// A newer load has been started since.
    Cancelled,
    /// The decoder gave up.
    Decoder(E),
    /// The developed picture has a channel layout that cannot become an RGBA image.
    UnsupportedFormat,
}

impl<E> DevelopError<E> {
    /// The message of an error that is not the decoder's.
    pub open spec fn spec_message(self) -> Option<Seq<char>> {
        match self {
            DevelopError::Cancelled => Some("Load cancelled"@),
            DevelopError::Decoder(_) => None,
            DevelopError::UnsupportedFormat => Some(
                "Unsupported intermediate format for conversion"@,
            ),
        }
    }

    /// The message of an error that is not the decoder's.
    pub fn message(&self) -> (r: Option<&'static str>)
        ensures
            r is Some <==> self.spec_message() is Some,
            r is Some ==> r->0@ == self.spec_message()->0,
    {
        match self {
            DevelopError::Cancelled => Some("Load cancelled"),
            DevelopError::Decoder(_) => None,
            DevelopError::UnsupportedFormat => Some(
                "Unsupported intermediate format for conversion",
            ),
        }
    }
}

/// Each error but the decoder's has its own message.
pub proof fn lemma_message_gives<E>(error: &DevelopError<E>, r: Option<&'static str>)
    requires
        call_ensures(DevelopError::<E>::message, (error,), r),
    ensures
        *error is Decoder <==> r is None,
        *error is Cancelled ==> r->0@ == "Load cancelled"@,
        *error is UnsupportedFormat ==> r->0@
            == "Unsupported intermediate format for conversion"@,
{
}

} // verus!
