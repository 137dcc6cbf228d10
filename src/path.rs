//! Joining path components, as `PathBuf::push` does on Unix.
use vstd::prelude::*;

verus! {

/// `base` with `component` pushed: an absolute component replaces the path,
/// any other is appended after a separator unless `base` is empty or already
/// ends with one.
pub open spec fn pushed(base: Seq<char>, component: Seq<char>) -> Seq<char> {
    if component.len() > 0 && component[0] == '/' {
        component
    } else if base.len() == 0 || base.last() == '/' {
        base + component
    } else {
        base + seq!['/'] + component
    }
}

/// The path made of `components`, pushed one after the other onto an empty path.
pub open spec fn joined_path(components: Seq<Seq<char>>) -> Seq<char>
    decreases components.len(),
{
    if components.len() == 0 {
        Seq::empty()
    } else {
        pushed(joined_path(components.drop_last()), components.last())
    }
}

pub fn push(base: &mut String, component: &str)
    ensures
        final(base)@ == pushed(old(base)@, component@),
{
    let b = crate::text::chars_of(base.as_str());
    let c = crate::text::chars_of(component);
    if c.len() > 0 && c[0] == '/' {
        *base = String::from_str(component);
    } else if b.len() == 0 || b[b.len() - 1] == '/' {
        base.append(component);
    } else {
        base.append("/");
        base.append(component);
        proof {
            reveal_strlit("/");
        }
    }
}

/// Joins the components into one path.
pub fn join_path(components: &Vec<String>) -> (r: String)
    ensures
        r@ == joined_path(components@.map_values(|s: String| s@)),
{
    let ghost views = components@.map_values(|s: String| s@);
    let mut r = String::new();
    let mut i: usize = 0;
    assert(views.subrange(0, 0) =~= Seq::<Seq<char>>::empty());
    while i < components.len()
        invariant
            views == components@.map_values(|s: String| s@),
            i <= components@.len(),
            r@ == joined_path(views.subrange(0, i as int)),
        decreases components@.len() - i,
    {
        push(&mut r, components[i].as_str());
        assert(views.subrange(0, i + 1).drop_last() =~= views.subrange(0, i as int));
        i += 1;
    }
    assert(views.subrange(0, i as int) =~= views);
    r
}

} // verus!
