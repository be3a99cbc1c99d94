//! The clipboard of the native library.
//!
//! The native library owns the clipboard. The calls that reach it stay with the caller;
//! this module decides what goes in and what each answer means: the text is handed over
//! as UTF-8 bytes ending in a nul, a failed call becomes the native library's last error
//! message, and the bytes that come back are read as UTF-8.
use vstd::prelude::*;
use vstd::string::StringSliceAdditionalSpecFns;
use vstd::utf8::{decode_utf8, encode_utf8, encode_utf8_decode_utf8, encode_utf8_valid_utf8, valid_utf8};

use crate::error::Error;

verus! {

/// The bytes that stand for a text at the native boundary: its UTF-8 encoding and a
/// terminating nul.
pub open spec fn c_text(text: Seq<char>) -> Seq<u8> {
    encode_utf8(text).push(0)
}

/// A handle on the initialized video subsystem of the native library.
///
/// Create it once the native video subsystem is up; the clipboard needs it.
#[derive(Clone, Copy, PartialEq, Eq, Structural, Debug)]
pub struct VideoSubsystem {}

impl VideoSubsystem {
    /// The handle on a video subsystem that the caller has initialized.
    pub fn new() -> (r: VideoSubsystem)
        ensures
            r == (VideoSubsystem {}),
    {
        VideoSubsystem {}
    }

    /// Access to the clipboard. The handle records only that the caller initialized the
    /// video subsystem; it keeps nothing alive.
    #[inline]
    pub fn clipboard(&self) -> (r: ClipboardUtil)
        ensures
            r.subsystem() == *self,
    {
        ClipboardUtil { _subsystem: *self }
    }
}

/// The clipboard, reached through an initialized video subsystem.
pub struct ClipboardUtil {
    _subsystem: VideoSubsystem,
}

/// Relies on `std::str::from_utf8`: `Ok` exactly when the bytes are valid UTF-8, and
/// then a string slice over those same bytes.
#[verifier::external_body]
fn utf8_str(bytes: &[u8]) -> (r: Option<&str>)
    ensures
        r.is_some() <==> valid_utf8(bytes@),
        r matches Some(s) ==> s.spec_bytes() == bytes@,
{
    std::str::from_utf8(bytes).ok()
}

impl ClipboardUtil {
    /// The video subsystem that this clipboard belongs to.
    pub closed spec fn subsystem(&self) -> VideoSubsystem {
        self._subsystem
    }

    /// The bytes to hand to the native "set clipboard text" call: the text's UTF-8
    /// encoding followed by a nul.
    ///
    /// Fails with [`Error::NulInText`], before any native call, exactly when the text
    /// holds a nul byte.
    pub fn clipboard_c_text(&self, text: &str) -> (r: Result<Vec<u8>, Error>)
        ensures
            text.spec_bytes().contains(0u8) <==> r is Err,
            r matches Err(e) ==> e == Error::NulInText,
            r matches Ok(v) ==> v@ == c_text(text@),
    {
        let bytes = text.as_bytes();
        let mut out: Vec<u8> = Vec::new();
        let mut i: usize = 0;
        while i < bytes.len()
            invariant
                i <= bytes@.len(),
                bytes@ == text.spec_bytes(),
                out@ == bytes@.subrange(0, i as int),
                forall|j: int| 0 <= j < i ==> bytes@[j] != 0u8,
            decreases bytes@.len() - i,
        {
            if bytes[i] == 0u8 {
                assert(bytes@[i as int] == 0u8);
                return Err(Error::NulInText);
            }
            out.push(bytes[i]);
            i = i + 1;
            assert(out@ =~= bytes@.subrange(0, i as int));
        }
        assert(out@ =~= bytes@);
        out.push(0u8);
        Ok(out)
    }

    /// What a native "set clipboard text" call means: success when the native library
    /// accepted the text, else its last error message.
    pub fn set_outcome(&self, accepted: bool, last_error: String) -> (r: Result<(), Error>)
        ensures
            accepted <==> r is Ok,
            !accepted ==> r == Err::<(), Error>(Error::SdlError(last_error)),
    {
        if accepted {
            Ok(())
        } else {
            Err(Error::SdlError(last_error))
        }
    }

    /// What a native "get clipboard text" call means, given the bytes it returned before
    /// their terminating nul, or `None` where it returned no text at all.
    ///
    /// No text is the native library's failure, reported with its last error message;
    /// otherwise the text that the bytes encode, which is empty for an empty clipboard.
    /// The bytes must be valid UTF-8.
    pub fn text_outcome(&self, buf: Option<Vec<u8>>, last_error: String) -> (r: Result<String, Error>)
        requires
            buf is Some ==> valid_utf8(buf->0@),
        ensures
            r is Err <==> buf is None,
            buf is None ==> r == Err::<String, Error>(Error::SdlError(last_error)),
            buf is Some ==> r->Ok_0@ == decode_utf8(buf->0@),
    {
        match buf {
            None => Err(Error::SdlError(last_error)),
            Some(b) => {
                let s = utf8_str(b.as_slice()).unwrap();
                proof {
                    encode_utf8_decode_utf8(s@);
                }
                Ok(s.to_owned())
            },
        }
    }
}

/// A text sent to the clipboard comes back unchanged: the bytes before the terminating
/// nul of what [`ClipboardUtil::clipboard_c_text`] produces are valid UTF-8 and decode to
/// the text, which is what [`ClipboardUtil::text_outcome`] returns for them.
pub proof fn lemma_clipboard_text_round_trip(text: Seq<char>)
    ensures
        valid_utf8(c_text(text).drop_last()),
        decode_utf8(c_text(text).drop_last()) == text,
{
    assert(c_text(text).drop_last() =~= encode_utf8(text));
    encode_utf8_valid_utf8(text);
    encode_utf8_decode_utf8(text);
}

} // verus!
