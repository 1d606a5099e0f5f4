use vstd::prelude::*;

verus! {

/// The address `name:tag`.
pub open spec fn tagged(name: Seq<char>, tag: Seq<char>) -> Seq<char> {
    name + seq![':'] + tag
}

/// The addresses an image is known by: the bare name when it has no tags,
/// otherwise `name:tag` for each tag, in tag order.
pub open spec fn expanded(name: Seq<char>, tags: Seq<Seq<char>>) -> Seq<Seq<char>> {
    if tags.len() == 0 {
        seq![name]
    } else {
        tags.map_values(|t: Seq<char>| tagged(name, t))
    }
}

/// The items joined with `sep` between each two neighbours.
pub open spec fn joined(items: Seq<Seq<char>>, sep: Seq<char>) -> Seq<char>
    decreases items.len(),
{
    if items.len() == 0 {
        Seq::empty()
    } else if items.len() == 1 {
        items[0]
    } else {
        joined(items.drop_last(), sep) + sep + items.last()
    }
}

/// The character view of each string.
pub open spec fn views(v: Seq<String>) -> Seq<Seq<char>> {
    v.map_values(|s: String| s@)
}

/// Builds the address `name:tag`.
pub fn tagged_identifier(name: &str, tag: &str) -> (r: String)
    ensures
        r@ == tagged(name@, tag@),
{
    let mut r = String::from_str(name);
    r.append(":");
    r.append(tag);
    proof {
        reveal_strlit(":");
    }
    r
}

/// Every address the image is known by, in tag order.
pub fn expanded_identifiers(name: &String, tags: &Vec<String>) -> (r: Vec<String>)
    ensures
        views(r@) == expanded(name@, views(tags@)),
{
    let mut ids: Vec<String> = Vec::new();
    if tags.len() == 0 {
        ids.push(name.clone());
        assert(views(ids@) =~= expanded(name@, views(tags@)));
    } else {
        let mut i: usize = 0;
        while i < tags.len()
            invariant
                i <= tags@.len(),
                ids@.len() == i,
                forall|j: int| 0 <= j < i ==> #[trigger] ids@[j]@ == tagged(name@, tags@[j]@),
            decreases tags@.len() - i,
        {
            let id = tagged_identifier(name.as_str(), tags[i].as_str());
            ids.push(id);
            i = i + 1;
        }
        assert(views(ids@) =~= expanded(name@, views(tags@)));
    }
    ids
}

/// The items joined with `sep`.
pub fn join(items: &Vec<String>, sep: &str) -> (r: String)
    ensures
        r@ == joined(views(items@), sep@),
{
    let mut r = String::new();
    let mut i: usize = 0;
    while i < items.len()
        invariant
            i <= items@.len(),
            r@ == joined(views(items@.subrange(0, i as int)), sep@),
        decreases items@.len() - i,
    {
        proof {
            let pre = views(items@.subrange(0, i as int + 1));
            assert(pre.drop_last() =~= views(items@.subrange(0, i as int)));
            assert(pre.last() == items@[i as int]@);
        }
        if i > 0 {
            r.append(sep);
        }
        r.append(items[i].as_str());
        i = i + 1;
    }
    assert(items@.subrange(0, i as int) =~= items@);
    r
}

/// The identifier expansion never comes out empty; it is the bare name
/// exactly when there are no tags, and otherwise holds `name:tag` for each
/// tag, one per tag and in tag order.
pub proof fn lemma_expanded_shape(name: Seq<char>, tags: Seq<Seq<char>>)
    ensures
        expanded(name, tags).len() > 0,
        tags.len() == 0 ==> expanded(name, tags) == seq![name],
        tags.len() > 0 ==> expanded(name, tags).len() == tags.len(),
        forall|i: int| 0 <= i < tags.len() ==> #[trigger] expanded(name, tags)[i] == tagged(name, tags[i]),
{
}

} // verus!
