//! Reading what the kernel's standard input and output answer.

use vstd::prelude::*;
use vstd::string::StringSliceAdditionalSpecFns;

verus! {

/// The standard input and output of the system.
///
/// Anyone can make a value of this at any time; the kernel serves all of
/// them alike, in no promised order.
#[derive(Debug)]
pub struct Stdio {}

impl Stdio {
    /// Whether the kernel has to be asked at all to write `s`: not for an
    /// empty text.
    pub fn needs_write(&self, s: &str) -> (r: bool)
        ensures
            r <==> s.spec_bytes().len() != 0,
    {
        s.as_bytes().len() != 0
    }

    /// Whether `s` counts as written, from what the kernel answered to the
    /// request to write its bytes. An empty text is written without asking,
    /// and `result` is not looked at; any other is written where the answer
    /// is not below zero.
    pub fn write_str(&mut self, s: &str, result: isize) -> (r: Result<(), ()>)
        ensures
            *final(self) == *old(self),
            r is Ok <==> s.spec_bytes().len() == 0 || result >= 0,
    {
        if !self.needs_write(s) {
            return Ok(());
        }
        if result >= 0 {
            Ok(())
        } else {
            Err(())
        }
    }

    /// The part of `buffer` that the kernel filled, from what it answered to
    /// the request to read into it: the number of bytes, or an error below
    /// zero.
    pub fn read_raw<'a>(&mut self, buffer: &'a mut [u8], bytes_read: isize) -> (r: Result<
        &'a mut [u8],
        (),
    >)
        requires
            bytes_read <= old(buffer)@.len(),
        ensures
            *final(self) == *old(self),
            r is Ok <==> bytes_read >= 0,
            r matches Ok(filled) ==> filled@ == old(buffer)@.take(bytes_read as int),
            r matches Ok(filled) ==> final(buffer)@ == final(filled)@ + old(buffer)@.skip(
                bytes_read as int,
            ),
            r is Err ==> final(buffer)@ == old(buffer)@,
    {
        if bytes_read >= 0 {
            let (filled, _) = buffer.split_at_mut(bytes_read as usize);
            Ok(filled)
        } else {
            Err(())
        }
    }
}

} // verus!
