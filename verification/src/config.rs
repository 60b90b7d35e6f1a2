//! Options of the file system.

use crate::model::{RawFd, Timeout};
use std::str::FromStr;
use vstd::prelude::*;
use vstd::string::StrSliceExecFns;
use vstd::utf8::{encode_scalar, encode_utf8};

verus! {

/// The caching policy that the file system reports to the FUSE client. By default the protocol uses
/// close-to-open consistency: cached contents of a file are invalidated the next time that it is
/// opened.
#[derive(Clone, Copy, Debug, PartialEq, Eq)]
pub enum CachePolicy {
    /// The client never caches file data, and all I/O goes to the server. To be chosen when files
    /// may change without the client's knowledge.
    Never,
    /// The client chooses when and how to cache file data.
    Auto,
    /// The client always caches file data, and keeps it when a file is opened again. To be chosen
    /// only when the file system has exclusive access to the directory.
    Always,
}

impl Default for CachePolicy {
    fn default() -> (policy: CachePolicy)
        ensures
            policy == CachePolicy::Auto,
    {
        CachePolicy::Auto
    }
}

/// The policy that a word stands for: its name in lower case, capitalised or in upper case.
pub open spec fn policy_named(word: Seq<char>) -> Option<CachePolicy> {
    if word == "never"@ || word == "Never"@ || word == "NEVER"@ {
        Some(CachePolicy::Never)
    } else if word == "auto"@ || word == "Auto"@ || word == "AUTO"@ {
        Some(CachePolicy::Auto)
    } else if word == "always"@ || word == "Always"@ || word == "ALWAYS"@ {
        Some(CachePolicy::Always)
    } else {
        None
    }
}

fn is_word(s: &str, word: &str) -> (same: bool)
    ensures
        same == (s@ == word@),
{
    let n: usize = word.unicode_len();
    if s.unicode_len() != n {
        return false;
    }
    let mut i: usize = 0;
    while i < n
        invariant
            i <= n,
            n == s@.len(),
            n == word@.len(),
            forall|k: int| 0 <= k < i ==> s@[k] == word@[k],
        decreases n - i,
    {
        if s.get_char(i) != word.get_char(i) {
            return false;
        }
        i = i + 1;
    }
    assert(s@ =~= word@);
    true
}

impl FromStr for CachePolicy {
    type Err = &'static str;

    fn from_str(s: &str) -> (policy: Result<CachePolicy, &'static str>)
        ensures
            match policy {
                Ok(policy) => policy_named(s@) == Some(policy),
                Err(message) => policy_named(s@) is None && message@ == "invalid cache policy"@,
            },
    {
        if is_word(s, "never") || is_word(s, "Never") || is_word(s, "NEVER") {
            Ok(CachePolicy::Never)
        } else if is_word(s, "auto") || is_word(s, "Auto") || is_word(s, "AUTO") {
            Ok(CachePolicy::Auto)
        } else if is_word(s, "always") || is_word(s, "Always") || is_word(s, "ALWAYS") {
            Ok(CachePolicy::Always)
        } else {
            Err("invalid cache policy")
        }
    }
}

/// Options that configure the behavior of the file system.
#[derive(Debug)]
pub struct Config {
    /// How long the client should consider directory entries to be valid. Should be large if only
    /// the client can change the directory. The default is 5 seconds.
    pub entry_timeout: Timeout,
    /// How long the client should consider attributes to be valid. Should be large if only the
    /// client can change them. The default is 5 seconds.
    pub attr_timeout: Timeout,
    /// The caching policy.
    pub cache_policy: CachePolicy,
    /// Whether the client may cache writes. Only to be set if the file system has exclusive access
    /// to the directory and can read all files in it. The default is `false`.
    pub writeback: bool,
    /// The path of the root directory. The default is `/`.
    pub root_dir: String,
    /// Whether extended attributes are supported. This may cost much performance, on parallel
    /// writes above all, as the client then tries to remove file privileges after each write. The
    /// default is `false`.
    pub xattr: bool,
    /// An open file for `/proc/self/fd`, so that there is no need to open it. The default is
    /// `None`.
    pub proc_sfd_rawfd: Option<RawFd>,
    /// The number of this file system in the table of exported files.
    pub export_fsid: u64,
    /// Whether there is a table of exported files to share with others.
    pub export_table: bool,
    /// Whether the guest may remove the root directory.
    pub allow_root_dir_delete: bool,
}

impl Clone for Config {
    fn clone(&self) -> (cfg: Config)
        ensures
            cfg.entry_timeout == self.entry_timeout,
            cfg.attr_timeout == self.attr_timeout,
            cfg.cache_policy == self.cache_policy,
            cfg.writeback == self.writeback,
            cfg.root_dir@ == self.root_dir@,
            cfg.xattr == self.xattr,
            cfg.proc_sfd_rawfd == self.proc_sfd_rawfd,
            cfg.export_fsid == self.export_fsid,
            cfg.export_table == self.export_table,
            cfg.allow_root_dir_delete == self.allow_root_dir_delete,
    {
        Config {
            entry_timeout: self.entry_timeout,
            attr_timeout: self.attr_timeout,
            cache_policy: self.cache_policy,
            writeback: self.writeback,
            root_dir: self.root_dir.clone(),
            xattr: self.xattr,
            proc_sfd_rawfd: self.proc_sfd_rawfd,
            export_fsid: self.export_fsid,
            export_table: self.export_table,
            allow_root_dir_delete: self.allow_root_dir_delete,
        }
    }
}

impl Config {
    /// The path of the root directory, as the host is handed it.
    pub open spec fn root_path(self) -> Seq<u8> {
        encode_utf8(self.root_dir@)
    }

    pub fn root_bytes(&self) -> (path: &[u8])
        ensures
            path@ == self.root_path(),
    {
        self.root_dir.as_str().as_bytes()
    }
}

impl Default for Config {
    fn default() -> (cfg: Config)
        ensures
            cfg.entry_timeout == (Timeout { secs: 5, nanos: 0 }),
            cfg.attr_timeout == (Timeout { secs: 5, nanos: 0 }),
            cfg.cache_policy == CachePolicy::Auto,
            !cfg.writeback,
            cfg.root_dir@ == "/"@,
            !cfg.xattr,
            cfg.proc_sfd_rawfd is None,
            cfg.export_fsid == 0,
            !cfg.export_table,
            !cfg.allow_root_dir_delete,
    {
        Config {
            entry_timeout: Timeout { secs: 5, nanos: 0 },
            attr_timeout: Timeout { secs: 5, nanos: 0 },
            cache_policy: CachePolicy::default(),
            writeback: false,
            root_dir: "/".to_owned(),
            xattr: false,
            proc_sfd_rawfd: None,
            export_fsid: 0,
            export_table: false,
            allow_root_dir_delete: false,
        }
    }
}

proof fn lemma_scalar_has_no_zero(scalar: u32)
    requires
        scalar != 0,
    ensures
        forall|i: int| 0 <= i < encode_scalar(scalar).len() ==> encode_scalar(scalar)[i] != 0,
{
    assert(scalar <= 0x7f && scalar != 0 ==> (scalar & 0x7f) as u8 != 0) by (bit_vector);
    assert(forall|b: u8|
        #![auto]
        0x80u8 | b != 0 && 0xc0u8 | b != 0 && 0xe0u8 | b != 0 && 0xf0u8 | b != 0) by (bit_vector);
}

proof fn lemma_text_has_no_zero(text: Seq<char>)
    requires
        !text.contains('\0'),
    ensures
        !encode_utf8(text).contains(0),
    decreases text.len(),
{
    if text.len() > 0 {
        let first = encode_scalar(text[0] as u32);
        let rest = text.drop_first();
        assert(text.contains(text[0]));
        assert(text[0] as u32 != 0) by {
            vstd::utf8::char_is_scalar(text[0]);
            vstd::utf8::char_u32_cast(text[0], text[0] as u32);
        }
        lemma_scalar_has_no_zero(text[0] as u32);
        assert forall|c: char| rest.contains(c) implies text.contains(c) by {
            let i = choose|i: int| 0 <= i < rest.len() && rest[i] == c;
            assert(text[i + 1] == c);
        }
        lemma_text_has_no_zero(rest);
        assert forall|i: int| 0 <= i < encode_utf8(text).len() implies encode_utf8(text)[i]
            != 0 by {
            if i >= first.len() {
                assert(encode_utf8(text)[i] == encode_utf8(rest)[i - first.len()]);
                assert(encode_utf8(rest).contains(encode_utf8(rest)[i - first.len()]));
            }
        }
    }
}

/// The path of a root directory whose name holds no zero character holds no zero byte, so that the
/// host can be handed it.
pub proof fn law_root_path_has_no_zero(cfg: Config)
    requires
        !cfg.root_dir@.contains('\0'),
    ensures
        !cfg.root_path().contains(0),
{
    lemma_text_has_no_zero(cfg.root_dir@);
}

/// A policy is named by its own name alone, in small letters, with a capital first, or all in capitals;
/// no other word names one, whatever its letters are like.
pub proof fn law_policy_is_named_in_three_ways(word: Seq<char>)
    ensures
        policy_named(word) == Some(CachePolicy::Never) <==> is_spelled(
            word,
            seq!['n', 'e', 'v', 'e', 'r'],
            seq!['N', 'E', 'V', 'E', 'R'],
        ),
        policy_named(word) == Some(CachePolicy::Auto) <==> is_spelled(
            word,
            seq!['a', 'u', 't', 'o'],
            seq!['A', 'U', 'T', 'O'],
        ),
        policy_named(word) == Some(CachePolicy::Always) <==> is_spelled(
            word,
            seq!['a', 'l', 'w', 'a', 'y', 's'],
            seq!['A', 'L', 'W', 'A', 'Y', 'S'],
        ),
{
    reveal_strlit("never");
    reveal_strlit("Never");
    reveal_strlit("NEVER");
    reveal_strlit("auto");
    reveal_strlit("Auto");
    reveal_strlit("AUTO");
    reveal_strlit("always");
    reveal_strlit("Always");
    reveal_strlit("ALWAYS");
    assert("never"@ =~= seq!['n', 'e', 'v', 'e', 'r']);
    assert("Never"@ =~= seq!['n', 'e', 'v', 'e', 'r'].update(0, 'N'));
    assert("NEVER"@ =~= seq!['N', 'E', 'V', 'E', 'R']);
    assert("auto"@ =~= seq!['a', 'u', 't', 'o']);
    assert("Auto"@ =~= seq!['a', 'u', 't', 'o'].update(0, 'A'));
    assert("AUTO"@ =~= seq!['A', 'U', 'T', 'O']);
    assert("always"@ =~= seq!['a', 'l', 'w', 'a', 'y', 's']);
    assert("Always"@ =~= seq!['a', 'l', 'w', 'a', 'y', 's'].update(0, 'A'));
    assert("ALWAYS"@ =~= seq!['A', 'L', 'W', 'A', 'Y', 'S']);
}

/// Whether a word has these small letters, the first of them as a capital or not, or these capitals.
pub open spec fn is_spelled(word: Seq<char>, small: Seq<char>, capital: Seq<char>) -> bool {
    word == small || word == capital || word == small.update(0, capital[0])
}

} // verus!
