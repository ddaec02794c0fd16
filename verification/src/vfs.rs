//! Reading what the kernel's file system layer answers.
//!
//! A [`File`] opened for reading still takes a request to write: file
//! operations may fail anyway, and such a request does.

use vstd::prelude::*;
use vstd::string::StringSliceAdditionalSpecFns;
use vstd::utf8::valid_utf8;
use crate::error::{negative_to_error, NumericError};
use crate::helpers::{
    c_str_bytes, str_from_utf8, strip_leading_slashes, until_nul, without_leading,
};

verus! {

/// An open file, known by the descriptor that the kernel gave for it.
#[derive(Debug)]
pub struct File {
    fileno: i32,
}

/// What the kernel tells about a file.
#[derive(Debug, Clone, Copy, PartialEq, Eq, Structural)]
pub struct Stat {
    /// The size of the file in bytes.
    pub st_size: usize,
}

/// Where to move the cursor of a file.
#[derive(Debug, Clone, Copy, PartialEq, Eq, Structural)]
pub enum SeekFrom {
    /// To the given position, counted from the start of the file.
    Start(usize),
    /// To the given position, counted from the end of the file.
    End(isize),
    /// To the given position, counted from where the cursor is.
    Current(isize),
}

/// From where the offset of a seek request counts.
#[derive(Debug, Clone, Copy, PartialEq, Eq, Structural)]
pub enum Whence {
    /// From the start of the file.
    Start,
    /// From where the cursor is.
    Current,
    /// From the end of the file.
    End,
}

/// An entry of a directory, as the kernel wrote it into its buffer.
#[derive(Debug)]
pub struct Dirent {
    d_name: Vec<u8>,
}

/// Why the buffer of a directory entry holds no name.
#[derive(Debug, Clone, Copy, PartialEq, Eq, Structural)]
pub enum DirentNameError {
    /// No zero byte ends the name.
    NotTerminated,
    /// The name is not well-formed UTF-8.
    NotUtf8,
}

/// Why a mount point has no path to show.
#[derive(Debug, Clone, Copy, PartialEq, Eq, Structural)]
pub enum MountPointError {
    /// The kernel holds no path for the mount point.
    Null,
    /// The path is not well-formed UTF-8.
    NotUtf8,
}

/// The path at which a file system is mounted, from what the kernel holds
/// for it: the bytes of the path, or nothing.
pub fn mount_point<'a>(reported: Option<&'a [u8]>) -> (r: Result<&'a str, MountPointError>)
    ensures
        reported is None ==> r == Err::<&str, MountPointError>(MountPointError::Null),
        reported matches Some(bytes) ==> (!valid_utf8(bytes@) ==> r == Err::<
            &str,
            MountPointError,
        >(MountPointError::NotUtf8)),
        reported matches Some(bytes) ==> (valid_utf8(bytes@) ==> r is Ok
            && r->Ok_0.spec_bytes() == bytes@),
{
    match reported {
        None => Err(MountPointError::Null),
        Some(bytes) => match str_from_utf8(bytes) {
            Some(path) => Ok(path),
            None => Err(MountPointError::NotUtf8),
        },
    }
}

impl Stat {
    /// The size of the file in bytes.
    pub fn size(&self) -> (r: usize)
        ensures
            r == self.st_size,
    {
        self.st_size
    }
}

impl SeekFrom {
    /// The offset that stands for this position in a request to the kernel.
    /// An offset is signed; a position from the start that is too large for
    /// one wraps around to where a cast would take it.
    pub open spec fn offset(self) -> int {
        match self {
            SeekFrom::Start(i) => if i <= isize::MAX {
                i as int
            } else {
                i - usize::MAX - 1
            },
            SeekFrom::Current(i) => i as int,
            SeekFrom::End(i) => i as int,
        }
    }

    /// The point from which the offset of this position counts.
    pub open spec fn whence(self) -> Whence {
        match self {
            SeekFrom::Start(_) => Whence::Start,
            SeekFrom::Current(_) => Whence::Current,
            SeekFrom::End(_) => Whence::End,
        }
    }

    /// The offset and the reference point by which the kernel is asked for
    /// this position.
    pub fn offset_and_whence(&self) -> (r: (isize, Whence))
        ensures
            r.0 == self.offset(),
            r.1 == self.whence(),
    {
        match *self {
            SeekFrom::Start(i) => {
                let half: usize = isize::MAX as usize;
                if i <= half {
                    (i as isize, Whence::Start)
                } else {
                    (((i - half - 1) as isize) + isize::MIN, Whence::Start)
                }
            },
            SeekFrom::Current(i) => (i, Whence::Current),
            SeekFrom::End(i) => (i, Whence::End),
        }
    }
}

impl File {
    #[verifier::type_invariant]
    spec fn is_open(self) -> bool {
        self.fileno >= 0
    }

    /// The descriptor of the file.
    pub closed spec fn descriptor(self) -> i32 {
        self.fileno
    }

    /// The file that the kernel opened, from its answer to the request: a
    /// descriptor, or an error below zero.
    pub fn open(answer: i32) -> (r: Result<File, NumericError>)
        ensures
            answer >= 0 ==> r is Ok && r->Ok_0.descriptor() == answer,
            answer < 0 ==> r is Err && r->Err_0.code() == answer,
    {
        match negative_to_error(answer as isize) {
            Ok(_) => Ok(File { fileno: answer }),
            Err(e) => Err(e),
        }
    }

    /// The descriptor of the file, which is not below zero.
    pub fn fileno(&self) -> (r: i32)
        ensures
            r == self.descriptor(),
            r >= 0,
    {
        proof {
            use_type_invariant(self);
        }
        self.fileno
    }

    /// What the kernel told about the file: `stat` is what it filled in, and
    /// counts only where its `answer` is no error.
    pub fn stat(&self, answer: i32, stat: Stat) -> (r: Result<Stat, NumericError>)
        ensures
            answer >= 0 ==> r == Ok::<Stat, NumericError>(stat),
            answer < 0 ==> r is Err && r->Err_0.code() == answer,
    {
        match negative_to_error(answer as isize) {
            Ok(_) => Ok(stat),
            Err(e) => Err(e),
        }
    }

    /// How many bytes the kernel read into the buffer it was given, from
    /// its answer to the request.
    pub fn read(&mut self, answer: isize) -> (r: Result<usize, NumericError>)
        ensures
            *final(self) == *old(self),
            answer >= 0 ==> r is Ok && r->Ok_0 == answer,
            answer < 0 ==> r is Err && r->Err_0.code() == answer,
    {
        match negative_to_error(answer) {
            Ok(len) => Ok(len as usize),
            Err(e) => Err(e),
        }
    }

    /// Where the cursor of the file stands after the kernel moved it, from
    /// its answer to the request.
    pub fn seek(&mut self, answer: isize) -> (r: Result<usize, NumericError>)
        ensures
            *final(self) == *old(self),
            answer >= 0 ==> r is Ok && r->Ok_0 == answer,
            answer < 0 ==> r is Err && r->Err_0.code() == answer,
    {
        match negative_to_error(answer) {
            Ok(position) => Ok(position as usize),
            Err(e) => Err(e),
        }
    }
}

impl Dirent {
    /// The buffer of the entry.
    pub closed spec fn buffer(self) -> Seq<u8> {
        self.d_name@
    }

    /// The bytes of the name that the buffer `d_name` holds: the text
    /// before the first zero byte, without the slashes at its start.
    pub open spec fn name_in(d_name: Seq<u8>) -> Result<Seq<u8>, DirentNameError> {
        match c_str_bytes(d_name) {
            None => Err(DirentNameError::NotTerminated),
            Some(bytes) => if valid_utf8(bytes) {
                Ok(without_leading(bytes, 0x2f))
            } else {
                Err(DirentNameError::NotUtf8)
            },
        }
    }

    /// The entry that the kernel read from a directory, from its answer to
    /// the request and the buffer it filled: there is an entry where the
    /// answer is above zero. Zero stands for the end of the directory, and
    /// an error ends the listing as well.
    pub fn read(answer: i32, d_name: Vec<u8>) -> (r: Option<Dirent>)
        ensures
            r is Some <==> answer > 0,
            r matches Some(entry) ==> entry.buffer() == d_name@,
    {
        if answer > 0 {
            Some(Dirent { d_name })
        } else {
            None
        }
    }

    /// The name of the file, or why the entry has none.
    pub fn try_name(&self) -> (r: Result<&str, DirentNameError>)
        ensures
            r matches Ok(name) ==> Self::name_in(self.buffer()) == Ok::<
                Seq<u8>,
                DirentNameError,
            >(name.spec_bytes()),
            r matches Err(e) ==> Self::name_in(self.buffer()) == Err::<Seq<u8>, DirentNameError>(
                e,
            ),
    {
        let bytes = match until_nul(self.d_name.as_slice()) {
            Some(bytes) => bytes,
            None => { return Err(DirentNameError::NotTerminated); },
        };
        match str_from_utf8(bytes) {
            Some(name) => Ok(strip_leading_slashes(name)),
            None => Err(DirentNameError::NotUtf8),
        }
    }

    /// The name of the file.
    pub fn name(&self) -> (r: &str)
        requires
            Self::name_in(self.buffer()) is Ok,
        ensures
            Self::name_in(self.buffer()) == Ok::<Seq<u8>, DirentNameError>(r.spec_bytes()),
    {
        self.try_name().unwrap()
    }
}

} // verus!
