//! The layer list of the union filesystem, and how it is written as one
//! argument.

use vstd::prelude::*;

verus! {

/// The layers written as one argument: joined by colons, in order.
pub open spec fn join_layers(layers: Seq<Seq<char>>) -> Seq<char>
    decreases layers.len(),
{
    if layers.len() == 0 {
        Seq::empty()
    } else if layers.len() == 1 {
        layers[0]
    } else {
        join_layers(layers.drop_last()) + ":"@ + layers.last()
    }
}

/// The layer list of a remount: the base directory first, then the content
/// path that is being added, if any, then the live content paths as listed.
pub open spec fn layer_list(
    base: Seq<char>,
    added: Option<Seq<char>>,
    mounted: Seq<Seq<char>>,
) -> Seq<Seq<char>> {
    match added {
        Some(content) => seq![base, content] + mounted,
        None => seq![base] + mounted,
    }
}

/// Joins the layers by colons.
pub fn join(layers: &Vec<String>) -> (joined: String)
    ensures
        joined@ == join_layers(layers.deep_view()),
{
    let mut joined = String::new();
    let mut i: usize = 0;
    while i < layers.len()
        invariant
            i <= layers.len(),
            joined@ == join_layers(layers.deep_view().take(i as int)),
        decreases layers.len() - i,
    {
        proof {
            let upto = layers.deep_view().take(i + 1);
            assert(upto.drop_last() =~= layers.deep_view().take(i as int));
            assert(upto.last() == layers[i as int]@);
            if i == 0 {
                assert(join_layers(upto) == upto[0]);
            }
        }
        if i > 0 {
            joined.append(":");
        }
        joined.append(layers[i].as_str());
        i += 1;
    }
    assert(layers.deep_view().take(i as int) =~= layers.deep_view());
    joined
}

/// Builds the layer list of a remount from the live content paths.
pub fn build_layer_list(
    base: &str,
    added: Option<&str>,
    mounted: Vec<String>,
) -> (layers: Vec<String>)
    ensures
        layers.deep_view() == layer_list(
            base@,
            match added {
                Some(content) => Some(content@),
                None => None,
            },
            mounted.deep_view(),
        ),
{
    let mut layers = mounted;
    if let Some(content) = added {
        layers.insert(0, content.to_owned());
        layers.insert(0, base.to_owned());
        assert(layers.deep_view() =~= seq![base@, content@] + mounted.deep_view());
    } else {
        layers.insert(0, base.to_owned());
        assert(layers.deep_view() =~= seq![base@] + mounted.deep_view());
    }
    layers
}

} // verus!
