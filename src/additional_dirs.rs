//! The warning given where `--add-dir` entries cannot take effect.

use vstd::prelude::*;
use crate::config_types::Language;
use crate::exec::SandboxPolicy;
use crate::i18n::{arg_views, interpolated, tr_args, translated, Catalogs};

verus! {

/// The paths joined with `, `.
pub open spec fn comma_joined(v: Seq<Seq<char>>) -> Seq<char>
    decreases v.len(),
{
    if v.len() == 0 {
        Seq::empty()
    } else if v.len() == 1 {
        v[0]
    } else {
        comma_joined(v.drop_last()) + seq![',', ' '] + v.last()
    }
}

fn join_paths(dirs: &Vec<String>) -> (r: String)
    ensures
        r@ == comma_joined(dirs@.map_values(|s: String| s@)),
{
    let ghost v = dirs@.map_values(|s: String| s@);
    let mut r = String::new();
    let mut i: usize = 0;
    while i < dirs.len()
        invariant
            i <= dirs.len(),
            v == dirs@.map_values(|s: String| s@),
            r@ == comma_joined(v.subrange(0, i as int)),
        decreases dirs.len() - i,
    {
        let ghost before = r@;
        if i > 0 {
            r.append(", ");
            proof {
                reveal_strlit(", ");
            }
        }
        r.append(dirs[i].as_str());
        proof {
            let s = v.subrange(0, i as int + 1);
            assert(s.drop_last() =~= v.subrange(0, i as int));
            if i == 0 {
                assert(r@ =~= comma_joined(s));
            } else {
                assert(r@ =~= comma_joined(s));
            }
        }
        i = i + 1;
    }
    assert(v.subrange(0, v.len() as int) =~= v);
    r
}

/// The warning for ignored directories: the catalog text with the paths
/// filled in.
pub open spec fn dirs_warning(c: Catalogs, language: Language, dirs: Seq<Seq<char>>) -> Seq<char> {
    interpolated(
        translated(c, language, "additional_dirs.read_only_warning"@),
        seq![("paths"@, comma_joined(dirs))],
        0,
    )
}

pub fn format_warning(catalogs: &Catalogs, additional_dirs: &Vec<String>, language: Language) -> (r:
    String)
    ensures
        r@ == dirs_warning(*catalogs, language, additional_dirs@.map_values(|s: String| s@)),
{
    let joined = join_paths(additional_dirs);
    let args = [("paths", joined.as_str())];
    proof {
        reveal_strlit("paths");
    }
    assert(arg_views(args@) =~= seq![("paths"@, joined@)]);
    tr_args(catalogs, language, "additional_dirs.read_only_warning", &args)
}

/// A warning where extra writable directories are given under a read-only
/// sandbox, which ignores them; nothing where none are given or the
/// sandbox allows them.
pub fn add_dir_warning_message(
    catalogs: &Catalogs,
    additional_dirs: &Vec<String>,
    sandbox_policy: SandboxPolicy,
    language: Language,
) -> (r: Option<String>)
    ensures
        additional_dirs@.len() == 0 || sandbox_policy != SandboxPolicy::ReadOnly ==> r is None,
        additional_dirs@.len() > 0 && sandbox_policy == SandboxPolicy::ReadOnly ==> r is Some
            && r->Some_0@ == dirs_warning(
            *catalogs,
            language,
            additional_dirs@.map_values(|s: String| s@),
        ),
{
    if additional_dirs.len() == 0 {
        return None;
    }
    match sandbox_policy {
        SandboxPolicy::WorkspaceWrite | SandboxPolicy::DangerFullAccess
        | SandboxPolicy::ExternalSandbox => None,
        SandboxPolicy::ReadOnly => Some(format_warning(catalogs, additional_dirs, language)),
    }
}

} // verus!
