//! Where the adapter is installed, and where its runtime and entry script lie.

use vstd::prelude::*;
use crate::request::ADAPTER_NAME;
use crate::text::{contains, lemma_contains_extend, lemma_contains_prefix};

verus! {

/// The adapter root: one directory under the base directory.
pub open spec fn adapter_dir_of(base: Seq<char>) -> Seq<char> {
    base + "/"@ + ADAPTER_NAME@
}

/// The installation directory of one version, `<adapter>_<version>` under the root.
pub open spec fn versioned_dir_of(base: Seq<char>, version: Seq<char>) -> Seq<char> {
    adapter_dir_of(base) + "/"@ + ADAPTER_NAME@ + "_"@ + version
}

/// The AutoHotkey runtime's path below an installation directory.
pub open spec fn exe_subpath() -> Seq<char> {
    "/extension/bin/AutoHotkey.exe"@
}

/// The adapter entry script's path below an installation directory.
pub open spec fn script_subpath() -> Seq<char> {
    "/extension/ahkdbg/debugAdapter.ahk"@
}

/// The runtime executable of one version.
pub open spec fn exe_path_of(base: Seq<char>, version: Seq<char>) -> Seq<char> {
    versioned_dir_of(base, version) + exe_subpath()
}

/// The adapter entry script of one version.
pub open spec fn script_path_of(base: Seq<char>, version: Seq<char>) -> Seq<char> {
    versioned_dir_of(base, version) + script_subpath()
}

proof fn lemma_literal_at(s: Seq<char>, t: Seq<char>, i: int)
    requires
        0 <= i,
        i + t.len() <= s.len(),
        s.subrange(i, i + t.len()) == t,
    ensures
        contains(s, t),
{
}

proof fn lemma_suffix_found(p: Seq<char>, t: Seq<char>)
    ensures
        contains(p + t, t),
{
    let i = p.len() as int;
    assert((p + t).subrange(i, i + t.len()) =~= t);
    lemma_literal_at(p + t, t, i);
}

/// An installation directory names its version.
pub proof fn lemma_versioned_dir_names_version(base: Seq<char>, version: Seq<char>)
    ensures
        contains(versioned_dir_of(base, version), version),
        contains(versioned_dir_of(base, version), ADAPTER_NAME@ + "_"@ + version),
{
    let head = adapter_dir_of(base) + "/"@;
    let name = ADAPTER_NAME@;
    let named = name + "_"@ + version;
    let full = versioned_dir_of(base, version);
    assert(full == head + name + "_"@ + version);
    lemma_suffix_found(head + name + "_"@, version);
    assert(full =~= head + named);
    lemma_suffix_found(head, named);
}

/// The runtime's path holds the version and each fixed component below it.
pub proof fn lemma_exe_path_components(base: Seq<char>, version: Seq<char>)
    ensures
        contains(exe_path_of(base, version), version),
        contains(exe_path_of(base, version), "extension"@),
        contains(exe_path_of(base, version), "bin"@),
        contains(exe_path_of(base, version), "AutoHotkey.exe"@),
{
    reveal_strlit("/extension/bin/AutoHotkey.exe");
    reveal_strlit("extension");
    reveal_strlit("bin");
    reveal_strlit("AutoHotkey.exe");
    let dir = versioned_dir_of(base, version);
    let sub = exe_subpath();
    lemma_versioned_dir_names_version(base, version);
    lemma_contains_extend(Seq::empty(), dir, sub, version);
    assert(sub.subrange(1, 1 + "extension"@.len() as int) =~= "extension"@);
    lemma_literal_at(sub, "extension"@, 1);
    assert(sub.subrange(11, 11 + "bin"@.len() as int) =~= "bin"@);
    lemma_literal_at(sub, "bin"@, 11);
    assert(sub.subrange(15, 15 + "AutoHotkey.exe"@.len() as int) =~= "AutoHotkey.exe"@);
    lemma_literal_at(sub, "AutoHotkey.exe"@, 15);
    lemma_contains_extend(dir, sub, Seq::empty(), "extension"@);
    lemma_contains_extend(dir, sub, Seq::empty(), "bin"@);
    lemma_contains_extend(dir, sub, Seq::empty(), "AutoHotkey.exe"@);
    assert(Seq::<char>::empty() + dir + sub =~= exe_path_of(base, version));
    assert(dir + sub + Seq::<char>::empty() =~= exe_path_of(base, version));
}

/// The entry script's path holds the version and each fixed component below it.
pub proof fn lemma_script_path_components(base: Seq<char>, version: Seq<char>)
    ensures
        contains(script_path_of(base, version), version),
        contains(script_path_of(base, version), "extension"@),
        contains(script_path_of(base, version), "ahkdbg"@),
        contains(script_path_of(base, version), "debugAdapter.ahk"@),
{
    reveal_strlit("/extension/ahkdbg/debugAdapter.ahk");
    reveal_strlit("extension");
    reveal_strlit("ahkdbg");
    reveal_strlit("debugAdapter.ahk");
    let dir = versioned_dir_of(base, version);
    let sub = script_subpath();
    lemma_versioned_dir_names_version(base, version);
    lemma_contains_extend(Seq::empty(), dir, sub, version);
    assert(sub.subrange(1, 1 + "extension"@.len() as int) =~= "extension"@);
    lemma_literal_at(sub, "extension"@, 1);
    assert(sub.subrange(11, 11 + "ahkdbg"@.len() as int) =~= "ahkdbg"@);
    lemma_literal_at(sub, "ahkdbg"@, 11);
    assert(sub.subrange(18, 18 + "debugAdapter.ahk"@.len() as int) =~= "debugAdapter.ahk"@);
    lemma_literal_at(sub, "debugAdapter.ahk"@, 18);
    lemma_contains_extend(dir, sub, Seq::empty(), "extension"@);
    lemma_contains_extend(dir, sub, Seq::empty(), "ahkdbg"@);
    lemma_contains_extend(dir, sub, Seq::empty(), "debugAdapter.ahk"@);
    assert(Seq::<char>::empty() + dir + sub =~= script_path_of(base, version));
    assert(dir + sub + Seq::<char>::empty() =~= script_path_of(base, version));
}

} // verus!
