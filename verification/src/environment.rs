//! Environment variables that a sandboxed program gets to see.
use vstd::prelude::*;

use crate::wide::WideString;

verus! {

/// The units of each string.
pub open spec fn wide_views(strings: Seq<WideString>) -> Seq<Seq<u16>> {
    strings.map_values(|s: WideString| s@)
}

/// The text of each string.
pub open spec fn text_views(strings: Seq<String>) -> Seq<Seq<char>> {
    strings.map_values(|s: String| s@)
}

/// Whether a sandboxed program may see the variable `name`: one of the exceptions, or the one
/// that is always allowed.
pub open spec fn is_allowed_variable(name: Seq<u16>, exceptions: Seq<Seq<char>>) -> bool {
    ||| name == crate::wide::encode_utf16("LOCALAPPDATA"@)
    ||| exists|i: int|
        0 <= i < exceptions.len() && name == #[trigger] crate::wide::encode_utf16(exceptions[i])
}

/// The variables, in their order, that a sandboxed program may not see.
pub open spec fn removed_variables(names: Seq<Seq<u16>>, exceptions: Seq<Seq<char>>) -> Seq<
    Seq<u16>,
> {
    names.filter(|name: Seq<u16>| !is_allowed_variable(name, exceptions))
}

/// The names of the variables that the exceptions allow.
fn allowed_variables(exceptions: &Vec<String>) -> (r: Vec<WideString>)
    ensures
        forall|name: Seq<u16>| #[trigger]
            is_allowed_variable(name, text_views(exceptions@)) <==> wide_views(r@).contains(name),
{
    let mut names: Vec<WideString> = Vec::new();
    let mut i: usize = 0;
    while i < exceptions.len()
        invariant
            i <= exceptions@.len(),
            names@.len() == i,
            forall|j: int|
                0 <= j < i ==> #[trigger] names@[j]@ == crate::wide::encode_utf16(exceptions@[j]@),
        decreases exceptions@.len() - i,
    {
        names.push(WideString::from_text(exceptions[i].as_str()));
        i = i + 1;
    }
    let ghost before = names@;
    names.push(WideString::from_text("LOCALAPPDATA"));
    proof {
        let texts = text_views(exceptions@);
        let views = wide_views(names@);
        assert forall|name: Seq<u16>| #[trigger]
            is_allowed_variable(name, texts) <==> views.contains(name) by {
            if name == crate::wide::encode_utf16("LOCALAPPDATA"@) {
                assert(views[before.len() as int] == name);
            } else if is_allowed_variable(name, texts) {
                let j = choose|j: int|
                    0 <= j < texts.len() && name == #[trigger] crate::wide::encode_utf16(texts[j]);
                assert(views[j] == names@[j]@);
                assert(names@[j] == before[j]);
            }
            if views.contains(name) {
                let j = choose|j: int| 0 <= j < views.len() && views[j] == name;
                assert(views[j] == names@[j]@);
                if j < before.len() {
                    assert(names@[j] == before[j]);
                    assert(name == crate::wide::encode_utf16(texts[j]));
                }
            }
        }
    }
    names
}

/// Whether `name` is one of `names`.
fn is_among(name: &WideString, names: &Vec<WideString>) -> (r: bool)
    ensures
        r == wide_views(names@).contains(name@),
{
    let mut i: usize = 0;
    while i < names.len()
        invariant
            i <= names@.len(),
            forall|j: int| 0 <= j < i ==> #[trigger] names@[j]@ != name@,
        decreases names@.len() - i,
    {
        if names[i].same(name) {
            assert(wide_views(names@)[i as int] == name@);
            return true;
        }
        i = i + 1;
    }
    proof {
        if wide_views(names@).contains(name@) {
            let j = choose|j: int| 0 <= j < names@.len() && wide_views(names@)[j] == name@;
            assert(names@[j]@ == name@);
        }
    }
    false
}

/// Adds those of `names` to `removed` that are not allowed.
fn remove_unless_allowed(
    names: &Vec<WideString>,
    allowed: &Vec<WideString>,
    removed: &mut Vec<WideString>,
    Ghost(exceptions): Ghost<Seq<Seq<char>>>,
)
    requires
        forall|name: Seq<u16>| #[trigger]
            is_allowed_variable(name, exceptions) <==> wide_views(allowed@).contains(name),
    ensures
        wide_views(final(removed)@) == wide_views(old(removed)@) + removed_variables(
            wide_views(names@),
            exceptions,
        ),
{
    let ghost before = wide_views(removed@);
    let ghost views = wide_views(names@);
    let mut i: usize = 0;
    proof {
        reveal(Seq::filter);
        assert(removed_variables(views.take(0), exceptions) =~= Seq::<Seq<u16>>::empty());
        assert(wide_views(removed@) =~= before + removed_variables(views.take(0), exceptions));
    }
    while i < names.len()
        invariant
            i <= names@.len(),
            views == wide_views(names@),
            forall|name: Seq<u16>| #[trigger]
                is_allowed_variable(name, exceptions) <==> wide_views(allowed@).contains(name),
            wide_views(removed@) == before + removed_variables(views.take(i as int), exceptions),
        decreases names@.len() - i,
    {
        proof {
            reveal(Seq::filter);
            assert(views.take(i + 1).drop_last() =~= views.take(i as int));
            assert(views.take(i + 1).last() == names@[i as int]@);
            assert(is_allowed_variable(names@[i as int]@, exceptions) <==> wide_views(
                allowed@,
            ).contains(names@[i as int]@));
        }
        let ghost so_far = removed@;
        if !is_among(&names[i], allowed) {
            removed.push(names[i].clone());
            assert(wide_views(removed@) =~= wide_views(so_far).push(names@[i as int]@));
        }
        assert(wide_views(removed@) =~= before + removed_variables(views.take(i + 1), exceptions));
        i = i + 1;
    }
    assert(views.take(i as int) =~= views);
}

/// The variables that have to be removed from the environment of a program: of those set for
/// the program itself and then those of this process, all that the exceptions do not allow.
pub fn variables_to_remove(
    command: &Vec<WideString>,
    process: &Vec<WideString>,
    exceptions: &Vec<String>,
) -> (r: Vec<WideString>)
    ensures
        wide_views(r@) == removed_variables(
            wide_views(command@) + wide_views(process@),
            text_views(exceptions@),
        ),
{
    let allowed: Vec<WideString> = allowed_variables(exceptions);
    let mut removed: Vec<WideString> = Vec::new();
    let ghost texts = text_views(exceptions@);
    remove_unless_allowed(command, &allowed, &mut removed, Ghost(texts));
    remove_unless_allowed(process, &allowed, &mut removed, Ghost(texts));
    proof {
        Seq::filter_distributes_over_add(
            wide_views(command@),
            wide_views(process@),
            |name: Seq<u16>| !is_allowed_variable(name, texts),
        );
        assert(wide_views(removed@) =~= removed_variables(wide_views(command@), texts)
            + removed_variables(wide_views(process@), texts));
    }
    removed
}

/// Which variables go: those that were there and that the exceptions do not allow.
pub proof fn removed_exactly_the_rest(
    names: Seq<Seq<u16>>,
    exceptions: Seq<Seq<char>>,
    name: Seq<u16>,
)
    ensures
        removed_variables(names, exceptions).contains(name) <==> names.contains(name)
            && !is_allowed_variable(name, exceptions),
    decreases names.len(),
{
    reveal(Seq::filter);
    let removed = removed_variables(names, exceptions);
    if names.len() > 0 {
        let rest = names.drop_last();
        removed_exactly_the_rest(rest, exceptions, name);
        let removed_rest = removed_variables(rest, exceptions);
        if names.contains(name) && name != names.last() {
            let i = choose|i: int| 0 <= i < names.len() && names[i] == name;
            assert(rest[i] == name);
        }
        if rest.contains(name) {
            let i = choose|i: int| 0 <= i < rest.len() && rest[i] == name;
            assert(names[i] == name);
        }
        if removed_rest.contains(name) {
            let i = choose|i: int| 0 <= i < removed_rest.len() && removed_rest[i] == name;
            assert(removed[i] == name);
        }
        if removed.contains(name) {
            let i = choose|i: int| 0 <= i < removed.len() && removed[i] == name;
            if i < removed_rest.len() {
                assert(removed_rest[i] == name);
            } else {
                assert(name == names.last());
            }
        }
        if name == names.last() && !is_allowed_variable(name, exceptions) {
            assert(removed.last() == name);
        }
    }
}

/// The variables, in their order, that are not among the exceptions.
pub open spec fn restricted_variables(names: Seq<Seq<char>>, exceptions: Seq<Seq<char>>) -> Seq<
    Seq<char>,
> {
    names.filter(|name: Seq<char>| !exceptions.contains(name))
}

/// The variables of this process that have to be removed so that only the exceptions are left.
pub fn restrict_env_variables(names: &Vec<String>, exceptions: &Vec<String>) -> (r: Vec<String>)
    ensures
        text_views(r@) == restricted_variables(text_views(names@), text_views(exceptions@)),
{
    let mut removed: Vec<String> = Vec::new();
    let ghost views = text_views(names@);
    let ghost texts = text_views(exceptions@);
    let mut i: usize = 0;
    proof {
        reveal(Seq::filter);
        assert(text_views(removed@) =~= restricted_variables(views.take(0), texts));
    }
    while i < names.len()
        invariant
            i <= names@.len(),
            views == text_views(names@),
            texts == text_views(exceptions@),
            text_views(removed@) == restricted_variables(views.take(i as int), texts),
        decreases names@.len() - i,
    {
        proof {
            reveal(Seq::filter);
            assert(views.take(i + 1).drop_last() =~= views.take(i as int));
            assert(views.take(i + 1).last() == names@[i as int]@);
        }
        let mut kept: bool = false;
        let mut j: usize = 0;
        while j < exceptions.len()
            invariant
                i < names@.len(),
                j <= exceptions@.len(),
                texts == text_views(exceptions@),
                kept == texts.take(j as int).contains(names@[i as int]@),
            decreases exceptions@.len() - j,
        {
            assert(texts.take(j + 1) =~= texts.take(j as int).push(exceptions@[j as int]@));
            let ghost earlier = texts.take(j as int);
            if exceptions[j] == names[i] {
                assert(earlier.push(exceptions@[j as int]@).last() == names@[i as int]@);
                kept = true;
            }
            proof {
                if earlier.contains(names@[i as int]@) {
                    let k = choose|k: int|
                        0 <= k < earlier.len() && earlier[k] == names@[i as int]@;
                    assert(texts.take(j + 1)[k] == names@[i as int]@);
                }
            }
            j = j + 1;
        }
        assert(texts.take(j as int) =~= texts);
        let ghost so_far = removed@;
        if !kept {
            removed.push(names[i].clone());
            assert(text_views(removed@) =~= text_views(so_far).push(names@[i as int]@));
        }
        i = i + 1;
    }
    assert(views.take(i as int) =~= views);
    removed
}

} // verus!
