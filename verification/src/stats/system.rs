//! The machine's names: architecture, distribution, host and versions.

use vstd::prelude::*;
use crate::text::{push_token, same_text, texts, token};

verus! {

/// What was read of the machine. A value that the machine does not tell is
/// absent.
#[derive(Clone, Debug, PartialEq, Eq)]
pub struct SystemInfo {
    pub arch: String,
    pub distro: String,
    pub host_name: Option<String>,
    pub kernel_version: Option<String>,
    pub name: Option<String>,
    pub os_version: Option<String>,
    pub long_os_version: Option<String>,
}

/// The text of a value that was read.
pub open spec fn text_of(value: Option<String>) -> Seq<char> {
    match value {
        Some(text) => text@,
        None => Seq::empty(),
    }
}

impl SystemInfo {
    /// Whether the value that a flag asks for was read. Architecture and
    /// distribution always are, and a flag that names no value asks for none.
    pub open spec fn tells(&self, flag: Seq<char>) -> bool {
        &&& flag == "host_name"@ ==> self.host_name is Some
        &&& flag == "kernel_version"@ ==> self.kernel_version is Some
        &&& flag == "name"@ ==> self.name is Some
        &&& flag == "os_version"@ ==> self.os_version is Some
        &&& flag == "long_os_version"@ ==> self.long_os_version is Some
    }

    /// The token that a flag asks for; none for a flag that names no value.
    pub open spec fn token_of(&self, flag: Seq<char>) -> Seq<char> {
        if flag == "arch"@ {
            token("ARCH"@, self.arch@, Seq::empty())
        } else if flag == "distro"@ {
            token("DISTRO"@, self.distro@, Seq::empty())
        } else if flag == "host_name"@ {
            token("HOST_NAME"@, text_of(self.host_name), Seq::empty())
        } else if flag == "kernel_version"@ {
            token("KERNEL_VERSION"@, text_of(self.kernel_version), Seq::empty())
        } else if flag == "name"@ {
            token("SYSTEM_NAME"@, text_of(self.name), Seq::empty())
        } else if flag == "os_version"@ {
            token("OS_VERSION"@, text_of(self.os_version), Seq::empty())
        } else if flag == "long_os_version"@ {
            token("LONG_OS_VERSION"@, text_of(self.long_os_version), Seq::empty())
        } else {
            Seq::empty()
        }
    }

    /// The tokens that a list of flags asks for, in the order of the flags.
    pub open spec fn tokens_of(&self, flags: Seq<Seq<char>>) -> Seq<char>
        decreases flags.len(),
    {
        if flags.len() == 0 {
            Seq::empty()
        } else {
            self.tokens_of(flags.drop_last()) + self.token_of(flags.last())
        }
    }
}

fn push_known(buf: &mut String, key: &str, value: &Option<String>)
    requires
        value is Some,
    ensures
        final(buf)@ == old(buf)@ + token(key@, text_of(*value), Seq::empty()),
{
    proof {
        reveal_strlit("");
    }
    match value {
        Some(text) => {
            push_token(buf, key, text.as_str(), "");
        },
        None => {},
    }
}

fn push_system_token(info: &SystemInfo, flag: &str, buf: &mut String)
    requires
        info.tells(flag@),
    ensures
        final(buf)@ == old(buf)@ + info.token_of(flag@),
{
    proof {
        reveal_strlit("");
    }
    if same_text(flag, "arch") {
        push_token(buf, "ARCH", info.arch.as_str(), "");
    } else if same_text(flag, "distro") {
        push_token(buf, "DISTRO", info.distro.as_str(), "");
    } else if same_text(flag, "host_name") {
        push_known(buf, "HOST_NAME", &info.host_name);
    } else if same_text(flag, "kernel_version") {
        push_known(buf, "KERNEL_VERSION", &info.kernel_version);
    } else if same_text(flag, "name") {
        push_known(buf, "SYSTEM_NAME", &info.name);
    } else if same_text(flag, "os_version") {
        push_known(buf, "OS_VERSION", &info.os_version);
    } else if same_text(flag, "long_os_version") {
        push_known(buf, "LONG_OS_VERSION", &info.long_os_version);
    }
}

/// Appends the tokens that `flags` ask for, in their order. Every value that
/// is asked for must have been read.
pub fn get_system_stats(info: &SystemInfo, flags: &[&str], buf: &mut String)
    requires
        forall|i: int| 0 <= i < flags@.len() ==> info.tells(#[trigger] texts(flags@)[i]),
    ensures
        final(buf)@ == old(buf)@ + info.tokens_of(texts(flags@)),
{
    let ghost names = texts(flags@);
    let mut i: usize = 0;
    while i < flags.len()
        invariant
            i <= flags.len(),
            names == texts(flags@),
            forall|j: int| 0 <= j < flags@.len() ==> info.tells(#[trigger] texts(flags@)[j]),
            buf@ == old(buf)@ + info.tokens_of(names.take(i as int)),
        decreases flags.len() - i,
    {
        proof {
            assert(names.take(i + 1).drop_last() =~= names.take(i as int));
            assert(names[i as int] == flags@[i as int]@);
        }
        push_system_token(info, flags[i], buf);
        i += 1;
    }
    assert(names.take(i as int) =~= names);
}

/// Whether every value that `flags` ask for was read, so that their tokens
/// can be written.
pub fn can_tell(info: &SystemInfo, flags: &[&str]) -> (all: bool)
    ensures
        all == forall|i: int| 0 <= i < flags@.len() ==> info.tells(#[trigger] texts(flags@)[i]),
{
    let mut i: usize = 0;
    while i < flags.len()
        invariant
            i <= flags.len(),
            forall|j: int| 0 <= j < i ==> info.tells(#[trigger] texts(flags@)[j]),
        decreases flags.len() - i,
    {
        let flag = flags[i];
        assert(texts(flags@)[i as int] == flag@);
        let told = (!same_text(flag, "host_name") || info.host_name.is_some()) && (!same_text(
            flag,
            "kernel_version",
        ) || info.kernel_version.is_some()) && (!same_text(flag, "name") || info.name.is_some())
            && (!same_text(flag, "os_version") || info.os_version.is_some()) && (!same_text(
            flag,
            "long_os_version",
        ) || info.long_os_version.is_some());
        if !told {
            return false;
        }
        i += 1;
    }
    true
}

} // verus!
