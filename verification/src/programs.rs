//! Assembling the list of installed image programs offered in the settings.
//! Probing the system (file existence, command lookup) is the shell's
//! business; it hands in each platform's candidates with a presence flag and
//! the selection rules live here.

use vstd::prelude::*;
use vstd::string::StringExecFns;

verus! {

/// One image viewer or editor: a display name and the path (or `"default"`)
/// used to launch it.
#[derive(Clone, Debug)]
pub struct ImageProgram {
    pub name: String,
    pub path: String,
}

/// Some program in the list already has this display name.
pub open spec fn seq_contains_name(s: Seq<ImageProgram>, n: Seq<char>) -> bool {
    exists|i: int| 0 <= i < s.len() && s[i].name@ == n
}

/// The programs kept from the candidate list on a system where `present[i]`
/// tells whether candidate `i` was found: present candidates in order, but
/// never two with the same display name (several install locations of one
/// program yield one entry).
pub open spec fn deduped_selection(cands: Seq<ImageProgram>, present: Seq<bool>) -> Seq<
    ImageProgram,
>
    decreases cands.len(),
{
    if cands.len() == 0 {
        Seq::empty()
    } else {
        let prev = deduped_selection(cands.drop_last(), present.drop_last());
        if present[cands.len() - 1] && !seq_contains_name(prev, cands.last().name@) {
            prev.push(cands.last())
        } else {
            prev
        }
    }
}

/// The programs kept from the candidate list: the present ones, in order.
pub open spec fn present_selection(cands: Seq<ImageProgram>, present: Seq<bool>) -> Seq<
    ImageProgram,
>
    decreases cands.len(),
{
    if cands.len() == 0 {
        Seq::empty()
    } else {
        let prev = present_selection(cands.drop_last(), present.drop_last());
        if present[cands.len() - 1] {
            prev.push(cands.last())
        } else {
            prev
        }
    }
}

/// Whether some already-kept program has the given display name.
fn vec_contains_name(list: &Vec<ImageProgram>, name: &String) -> (r: bool)
    ensures
        r == seq_contains_name(list@, name@),
{
    let mut j: usize = 0;
    while j < list.len()
        invariant
            j <= list@.len(),
            forall|t: int| 0 <= t < j ==> (#[trigger] list@[t]).name@ != name@,
        decreases list@.len() - j,
    {
        if list[j].name.eq(name) {
            return true;
        }
        j = j + 1;
    }
    false
}

/// Keep the candidates that were found on a Windows system, dropping
/// duplicate display names: several install locations of one program (for
/// instance different versions) yield a single entry.
#[verifier::loop_isolation(false)]
pub fn detect_windows_programs(candidates: Vec<ImageProgram>, present: Vec<bool>) -> (r: Vec<
    ImageProgram,
>)
    requires
        candidates@.len() == present@.len(),
    ensures
        r@ == deduped_selection(candidates@, present@),
{
    let mut rest = candidates;
    let mut found: Vec<ImageProgram> = Vec::new();
    let mut k: usize = 0;
    while k < present.len()
        invariant
            k + rest@.len() == candidates@.len(),
            rest@ == candidates@.skip(k as int),
            found@ == deduped_selection(candidates@.take(k as int), present@.take(k as int)),
        decreases rest@.len(),
    {
        proof {
            assert(candidates@.take(k as int + 1).drop_last() =~= candidates@.take(k as int));
            assert(present@.take(k as int + 1).drop_last() =~= present@.take(k as int));
            assert(candidates@.take(k as int + 1).last() == candidates@[k as int]);
            assert(candidates@.skip(k as int)[0] == candidates@[k as int]);
            assert(candidates@.skip(k as int).remove(0) =~= candidates@.skip(k as int + 1));
        }
        let c = rest.remove(0);
        if present[k] {
            let keep = !vec_contains_name(&found, &c.name);
            if keep {
                found.push(c);
            }
        }
        k = k + 1;
    }
    proof {
        assert(candidates@.take(candidates@.len() as int) =~= candidates@);
        assert(present@.take(candidates@.len() as int) =~= present@);
    }
    found
}

/// Keep the candidates that were found on a macOS system, in order.
#[verifier::loop_isolation(false)]
pub fn detect_macos_programs(candidates: Vec<ImageProgram>, present: Vec<bool>) -> (r: Vec<
    ImageProgram,
>)
    requires
        candidates@.len() == present@.len(),
    ensures
        r@ == present_selection(candidates@, present@),
{
    let mut rest = candidates;
    let mut found: Vec<ImageProgram> = Vec::new();
    let mut k: usize = 0;
    while k < present.len()
        invariant
            k + rest@.len() == candidates@.len(),
            rest@ == candidates@.skip(k as int),
            found@ == present_selection(candidates@.take(k as int), present@.take(k as int)),
        decreases rest@.len(),
    {
        proof {
            assert(candidates@.take(k as int + 1).drop_last() =~= candidates@.take(k as int));
            assert(present@.take(k as int + 1).drop_last() =~= present@.take(k as int));
            assert(candidates@.take(k as int + 1).last() == candidates@[k as int]);
            assert(candidates@.skip(k as int)[0] == candidates@[k as int]);
            assert(candidates@.skip(k as int).remove(0) =~= candidates@.skip(k as int + 1));
        }
        let c = rest.remove(0);
        if present[k] {
            found.push(c);
        }
        k = k + 1;
    }
    proof {
        assert(candidates@.take(candidates@.len() as int) =~= candidates@);
        assert(present@.take(candidates@.len() as int) =~= present@);
    }
    found
}

/// The program list offered to the user: the system default entry first,
/// then whatever the platform probe found.
pub fn detect_image_programs(os_programs: Vec<ImageProgram>) -> (r: Vec<ImageProgram>)
    ensures
        r@.len() == os_programs@.len() + 1,
        r@[0].name@ == "System Default"@,
        r@[0].path@ == "default"@,
        forall|i: int| 0 <= i < os_programs@.len() ==> r@[i + 1] == (#[trigger] os_programs@[i]),
{
    let mut out: Vec<ImageProgram> = Vec::new();
    out.push(
        ImageProgram {
            name: String::from_str("System Default"),
            path: String::from_str("default"),
        },
    );
    let mut rest = os_programs;
    out.append(&mut rest);
    out
}

} // verus!

verus! {

/// The programs kept from a Linux candidate list, where `resolved[i]` is the
/// path a command lookup returned for candidate `i`, if any: candidates whose
/// lookup yielded a non-empty path, in order.
pub open spec fn linux_selection(names: Seq<String>, resolved: Seq<Option<String>>) -> Seq<
    ImageProgram,
>
    decreases names.len(),
{
    if names.len() == 0 {
        Seq::empty()
    } else {
        let prev = linux_selection(names.drop_last(), resolved.drop_last());
        if resolved[names.len() - 1] matches Some(p) && p@.len() > 0 {
            prev.push(ImageProgram { name: names.last(), path: resolved[names.len() - 1]->0 })
        } else {
            prev
        }
    }
}

/// Keep the candidates whose command lookup succeeded with a non-empty path
/// on a Linux system, pairing each display name with the resolved path.
#[verifier::loop_isolation(false)]
pub fn detect_linux_programs(names: Vec<String>, resolved: Vec<Option<String>>) -> (r: Vec<
    ImageProgram,
>)
    requires
        names@.len() == resolved@.len(),
    ensures
        r@ == linux_selection(names@, resolved@),
{
    let total = names.len();
    let mut names_rest = names;
    let mut resolved_rest = resolved;
    let mut found: Vec<ImageProgram> = Vec::new();
    let mut k: usize = 0;
    while k < total
        invariant
            k + names_rest@.len() == names@.len(),
            k + resolved_rest@.len() == resolved@.len(),
            total == names@.len(),
            names_rest@ == names@.skip(k as int),
            resolved_rest@ == resolved@.skip(k as int),
            found@ == linux_selection(names@.take(k as int), resolved@.take(k as int)),
        decreases total - k,
    {
        proof {
            assert(names@.take(k as int + 1).drop_last() =~= names@.take(k as int));
            assert(resolved@.take(k as int + 1).drop_last() =~= resolved@.take(k as int));
            assert(names@.take(k as int + 1).last() == names@[k as int]);
            assert(names@.skip(k as int)[0] == names@[k as int]);
            assert(resolved@.skip(k as int)[0] == resolved@[k as int]);
            assert(names@.skip(k as int).remove(0) =~= names@.skip(k as int + 1));
            assert(resolved@.skip(k as int).remove(0) =~= resolved@.skip(k as int + 1));
        }
        let name = names_rest.remove(0);
        let path_found = resolved_rest.remove(0);
        match path_found {
            Some(p) => {
                if p.as_str().unicode_len() > 0 {
                    found.push(ImageProgram { name, path: p });
                }
            },
            None => {},
        }
        k = k + 1;
    }
    proof {
        assert(names@.take(names@.len() as int) =~= names@);
        assert(resolved@.take(resolved@.len() as int) =~= resolved@);
    }
    found
}

} // verus!
