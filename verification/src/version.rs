//! The version of a service interface.

use crate::ids::{MajorVersion, MinorVersion};
use crate::text::{decimal, push_decimal};
use vstd::prelude::*;
use vstd::string::StringExecFns;

verus! {

/// Version (major, minor) of a service interface. A version taken from an
/// inbound message has a concrete major part and a minor part that stands for
/// every minor version, since messages do not carry the minor part.
#[derive(PartialEq, Eq, Structural, PartialOrd, Ord, Debug, Clone, Copy)]
pub struct InterfaceVersion {
    pub major: MajorVersion,
    pub minor: MinorVersion,
}

impl InterfaceVersion {
    /// The canonical text: `-.-` where the major part stands for every
    /// version, else the major part in decimal, a dot, and the minor part in
    /// decimal or `-` where it stands for every minor version.
    pub open spec fn text(&self) -> Seq<char> {
        if self.major.0 == 0xff {
            "-.-"@
        } else if self.minor.0 == 0xffff_ffff {
            decimal(self.major.0 as nat) + ".-"@
        } else {
            decimal(self.major.0 as nat) + "."@ + decimal(self.minor.0 as nat)
        }
    }

    /// The version that stands for every major and every minor version.
    pub fn make_any() -> (r: Self)
        ensures
            r.major.0 == 0xff,
            r.minor.0 == 0xffff_ffff,
    {
        InterfaceVersion { major: MajorVersion(0xff), minor: MinorVersion(0xffff_ffff) }
    }

    /// The version `major.minor`.
    pub fn make_version(major: u8, minor: u32) -> (r: Self)
        ensures
            r.major.0 == major,
            r.minor.0 == minor,
    {
        InterfaceVersion { major: MajorVersion(major), minor: MinorVersion(minor) }
    }

    /// The version with the given major part and every minor version.
    pub fn make_major(major: u8) -> (r: Self)
        ensures
            r.major.0 == major,
            r.minor.0 == 0xffff_ffff,
    {
        InterfaceVersion { major: MajorVersion(major), minor: MinorVersion(0xffff_ffff) }
    }

    /// Appends the canonical text to `out`.
    pub fn push_to(&self, out: &mut String)
        ensures
            final(out)@ == old(out)@ + self.text(),
    {
        if self.major.0 == 0xff {
            out.append("-.-");
        } else if self.minor.0 == 0xffff_ffff {
            push_decimal(out, self.major.0 as u32);
            out.append(".-");
            assert(out@ =~= old(out)@ + self.text());
        } else {
            push_decimal(out, self.major.0 as u32);
            out.append(".");
            push_decimal(out, self.minor.0);
            assert(out@ =~= old(out)@ + self.text());
        }
    }

    /// The canonical text.
    pub fn to_string(&self) -> (r: String)
        ensures
            r@ == self.text(),
    {
        let mut out = String::new();
        self.push_to(&mut out);
        assert(out@ =~= self.text());
        out
    }
}

} // verus!
