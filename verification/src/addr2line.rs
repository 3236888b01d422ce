//! The choice of the `addr2line` tool that resolves the addresses of a
//! debug binary: each toolchain leaves the name of its startup object in
//! the binaries it links.

use vstd::prelude::*;
use vstd::string::{StringExecFns, StringSliceAdditionalSpecFns};

verus! {

/// A toolchain whose binaries the client can resolve addresses in, in the
/// order in which a binary is tried against them.
#[derive(Debug, Clone, Copy, PartialEq, Eq, Structural)]
pub enum Toolchain {
    /// 32-bit ARM.
    Arm,
    /// 64-bit ARM.
    Aarch64,
    /// PowerPC.
    PowerPc,
}

impl Toolchain {
    /// The name of the toolchain's `addr2line` program.
    pub open spec fn binary_name(self) -> Seq<char> {
        match self {
            Toolchain::Arm => "arm-none-eabi-addr2line"@,
            Toolchain::Aarch64 => "aarch64-none-elf-addr2line"@,
            Toolchain::PowerPc => "powerpc-eabi-addr2line"@,
        }
    }

    /// The architecture argument that the program is given.
    pub open spec fn architecture(self) -> Seq<char> {
        match self {
            Toolchain::Arm => "arm"@,
            Toolchain::Aarch64 => ""@,
            Toolchain::PowerPc => ""@,
        }
    }

    /// The bytes that mark a binary of the toolchain: the name of its
    /// startup object.
    pub open spec fn magic(self) -> Seq<u8> {
        match self {
            Toolchain::Arm => "3dsx_crt0.o".spec_bytes(),
            Toolchain::Aarch64 => "switch_crt0.o".spec_bytes(),
            Toolchain::PowerPc => "crt0_rpx.o".spec_bytes(),
        }
    }

    /// The arguments that precede the path of the binary.
    pub open spec fn arguments(self) -> Seq<char> {
        "-aipfCe "@ + self.architecture() + " -e"@
    }

    /// The name of the toolchain's `addr2line` program.
    pub fn binary(&self) -> (name: &'static str)
        ensures
            name@ == self.binary_name(),
    {
        match self {
            Toolchain::Arm => "arm-none-eabi-addr2line",
            Toolchain::Aarch64 => "aarch64-none-elf-addr2line",
            Toolchain::PowerPc => "powerpc-eabi-addr2line",
        }
    }

    fn architecture_text(&self) -> (text: &'static str)
        ensures
            text@ == self.architecture(),
    {
        match self {
            Toolchain::Arm => "arm",
            Toolchain::Aarch64 => "",
            Toolchain::PowerPc => "",
        }
    }

    fn magic_bytes(&self) -> (bytes: &'static [u8])
        ensures
            bytes@ == self.magic(),
    {
        match self {
            Toolchain::Arm => "3dsx_crt0.o".as_bytes(),
            Toolchain::Aarch64 => "switch_crt0.o".as_bytes(),
            Toolchain::PowerPc => "crt0_rpx.o".as_bytes(),
        }
    }
}

/// Why no `addr2line` program could be chosen.
#[derive(Debug, Clone, Copy, PartialEq, Eq, Structural)]
pub enum Addr2lineError {
    /// The path names no file.
    NotAFile,
    /// The file holds no bytes.
    EmptyFile,
    /// The file carries the mark of no known toolchain.
    NoToolchain,
    /// The program of the file's toolchain is not installed.
    NotInstalled(Toolchain),
}

/// The two kinds that the errors fall into.
#[derive(Debug, Clone, Copy, PartialEq, Eq, Structural)]
pub enum ErrorKind {
    NotFound,
    InvalidData,
}

impl Addr2lineError {
    /// The kind of the error: an empty file is invalid data, all else was
    /// not found.
    pub fn kind(&self) -> (kind: ErrorKind)
        ensures
            kind == (if *self == Addr2lineError::EmptyFile {
                ErrorKind::InvalidData
            } else {
                ErrorKind::NotFound
            }),
    {
        match self {
            Addr2lineError::EmptyFile => ErrorKind::InvalidData,
            _ => ErrorKind::NotFound,
        }
    }

    /// The line that reports the error, for the file shown as `file`.
    pub open spec fn text(self, file: Seq<char>) -> Seq<char> {
        match self {
            Addr2lineError::NotAFile => "File not found or not a file: "@ + file,
            Addr2lineError::EmptyFile => "File is empty: "@ + file,
            Addr2lineError::NoToolchain => "No suitable addr2line binary found"@,
            Addr2lineError::NotInstalled(toolchain) => toolchain.binary_name() + " not found"@,
        }
    }

    /// The line that reports the error, for the file shown as `file`.
    pub fn message(&self, file: &str) -> (line: String)
        ensures
            line@ == self.text(file@),
    {
        match self {
            Addr2lineError::NotAFile => {
                let mut line = String::from_str("File not found or not a file: ");
                line.append(file);
                line
            },
            Addr2lineError::EmptyFile => {
                let mut line = String::from_str("File is empty: ");
                line.append(file);
                line
            },
            Addr2lineError::NoToolchain => String::from_str("No suitable addr2line binary found"),
            Addr2lineError::NotInstalled(toolchain) => {
                let mut line = String::from_str(toolchain.binary());
                line.append(" not found");
                line
            },
        }
    }
}

/// Whether `needle` stands in `hay` from place `at` on.
pub open spec fn occurs_at(hay: Seq<u8>, needle: Seq<u8>, at: int) -> bool {
    0 <= at && at + needle.len() <= hay.len() && hay.subrange(at, at + needle.len()) == needle
}

/// Whether `needle` stands somewhere in `hay`.
pub open spec fn occurs(hay: Seq<u8>, needle: Seq<u8>) -> bool {
    exists|at: int| occurs_at(hay, needle, at)
}

/// Whether binaries of `toolchain` carry its mark in `contents`.
pub open spec fn marked(contents: Seq<u8>, toolchain: Toolchain) -> bool {
    occurs(contents, toolchain.magic())
}

/// The toolchain that `contents` is tried against first, second and third.
pub open spec fn detected(contents: Seq<u8>) -> Result<Toolchain, Addr2lineError> {
    if contents.len() == 0 {
        Err(Addr2lineError::EmptyFile)
    } else if marked(contents, Toolchain::Arm) {
        Ok(Toolchain::Arm)
    } else if marked(contents, Toolchain::Aarch64) {
        Ok(Toolchain::Aarch64)
    } else if marked(contents, Toolchain::PowerPc) {
        Ok(Toolchain::PowerPc)
    } else {
        Err(Addr2lineError::NoToolchain)
    }
}

/// Whether `needle` stands in `hay` from place `at` on.
fn matches_at(hay: &[u8], needle: &[u8], at: usize) -> (found: bool)
    requires
        at + needle@.len() <= hay@.len(),
    ensures
        found == occurs_at(hay@, needle@, at as int),
{
    let total: usize = hay.len();
    let mut k: usize = 0;
    while k < needle.len()
        invariant
            k <= needle@.len(),
            at + needle@.len() <= hay@.len() == total,
            forall|j: int| 0 <= j < k ==> hay@[at + j] == needle@[j],
        decreases needle@.len() - k,
    {
        if hay[at + k] != needle[k] {
            proof {
                let window = hay@.subrange(at as int, at + needle@.len());
                assert(window[k as int] == hay@[at + k]);
            }
            return false;
        }
        k += 1;
    }
    assert(hay@.subrange(at as int, at + needle@.len()) =~= needle@);
    true
}

/// Whether `needle` stands somewhere in `hay`.
pub fn contains(hay: &[u8], needle: &[u8]) -> (found: bool)
    ensures
        found == occurs(hay@, needle@),
{
    if needle.len() > hay.len() {
        assert(forall|at: int| !occurs_at(hay@, needle@, at));
        return false;
    }
    if needle.len() == 0 {
        assert(hay@.subrange(0, 0) =~= needle@);
        assert(occurs_at(hay@, needle@, 0));
        return true;
    }
    let windows: usize = hay.len() - needle.len() + 1;
    let mut at: usize = 0;
    while at < windows
        invariant
            at <= windows,
            windows == hay@.len() - needle@.len() + 1,
            forall|j: int| 0 <= j < at ==> !occurs_at(hay@, needle@, j),
        decreases windows - at,
    {
        if matches_at(hay, needle, at) {
            return true;
        }
        at += 1;
    }
    assert(forall|j: int| !occurs_at(hay@, needle@, j));
    false
}

/// Chooses the toolchain of a binary by the mark in its contents. An empty
/// file is refused; so is one that carries no mark.
pub fn detect_toolchain(contents: &[u8]) -> (found: Result<Toolchain, Addr2lineError>)
    ensures
        found == detected(contents@),
{
    if contents.len() == 0 {
        return Err(Addr2lineError::EmptyFile);
    }
    if contains(contents, Toolchain::Arm.magic_bytes()) {
        Ok(Toolchain::Arm)
    } else if contains(contents, Toolchain::Aarch64.magic_bytes()) {
        Ok(Toolchain::Aarch64)
    } else if contains(contents, Toolchain::PowerPc.magic_bytes()) {
        Ok(Toolchain::PowerPc)
    } else {
        Err(Addr2lineError::NoToolchain)
    }
}

/// The program to run for `toolchain` and the arguments that precede the
/// path of the binary, where the program is installed.
pub fn get_addr2line(toolchain: Toolchain, installed: bool) -> (command: Result<
    (String, String),
    Addr2lineError,
>)
    ensures
        installed ==> (command matches Ok(pair) && pair.0@ == toolchain.binary_name() && pair.1@
            == toolchain.arguments()),
        !installed ==> command == Err::<(String, String), Addr2lineError>(
            Addr2lineError::NotInstalled(toolchain),
        ),
{
    if !installed {
        return Err(Addr2lineError::NotInstalled(toolchain));
    }
    let mut arguments = String::from_str("-aipfCe ");
    arguments.append(toolchain.architecture_text());
    arguments.append(" -e");
    Ok((String::from_str(toolchain.binary()), arguments))
}

} // verus!
