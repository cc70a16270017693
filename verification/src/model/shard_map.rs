//! Placement of embedded vision tensors in the loaded model shards.

use vstd::prelude::*;

verus! {

/// Index of the first of `shards` equal to `file`, if any.
pub open spec fn first_shard_position(shards: Seq<Seq<char>>, file: Seq<char>, from: int) -> Option<int>
    decreases shards.len() - from,
{
    if from < 0 || from >= shards.len() {
        None
    } else if shards[from] == file {
        Some(from)
    } else {
        first_shard_position(shards, file, from + 1)
    }
}

/// Each vision tensor whose shard file is one of the model shards, paired with that
/// shard's (first) position, in the order the tensors are listed.
pub open spec fn vision_tensor_shard_positions(
    vision_tensors: Seq<(Seq<char>, Seq<char>)>,
    shards: Seq<Seq<char>>,
) -> Seq<(Seq<char>, int)>
    decreases vision_tensors.len(),
{
    if vision_tensors.len() == 0 {
        Seq::empty()
    } else {
        let previous = vision_tensor_shard_positions(vision_tensors.drop_last(), shards);
        let (name, file) = vision_tensors.last();
        match first_shard_position(shards, file, 0) {
            Some(position) => previous.push((name, position)),
            None => previous,
        }
    }
}

proof fn lemma_first_shard_position_in_range(shards: Seq<Seq<char>>, file: Seq<char>, from: int)
    ensures
        first_shard_position(shards, file, from) matches Some(p) ==> 0 <= from <= p < shards.len(),
    decreases shards.len() - from,
{
    if 0 <= from < shards.len() && shards[from] != file {
        lemma_first_shard_position_in_range(shards, file, from + 1);
    }
}

pub open spec fn pair_views(pairs: Seq<(String, String)>) -> Seq<(Seq<char>, Seq<char>)> {
    pairs.map_values(|pair: (String, String)| (pair.0@, pair.1@))
}

pub open spec fn string_views(strings: Seq<String>) -> Seq<Seq<char>> {
    strings.map_values(|s: String| s@)
}

pub open spec fn position_views(entries: Seq<(String, usize)>) -> Seq<(Seq<char>, int)> {
    entries.map_values(|entry: (String, usize)| (entry.0@, entry.1 as int))
}

fn shard_position(model_shard_file_names: &[String], shard_file_name: &String) -> (position: Option<usize>)
    ensures
        match first_shard_position(string_views(model_shard_file_names@), shard_file_name@, 0) {
            Some(p) => position == Some(p as usize),
            None => position is None,
        },
{
    let ghost shards = string_views(model_shard_file_names@);
    let mut index: usize = 0;
    while index < model_shard_file_names.len()
        invariant
            index <= model_shard_file_names@.len(),
            shards == string_views(model_shard_file_names@),
            first_shard_position(shards, shard_file_name@, 0) == first_shard_position(
                shards,
                shard_file_name@,
                index as int,
            ),
        decreases model_shard_file_names.len() - index,
    {
        if model_shard_file_names[index] == *shard_file_name {
            assert(shards[index as int] == shard_file_name@);
            return Some(index);
        }
        assert(shards[index as int] != shard_file_name@);
        index += 1;
    }
    None
}

/// Maps embedded vision tensor names (with the shard file that stores each) to the
/// position of that file among the loaded model shards; tensors stored in a file that
/// is not a model shard are left out.
pub fn build_vision_tensor_shard_map(
    vision_tensor_shard_file_names: &[(String, String)],
    model_shard_file_names: &[String],
) -> (positions: Vec<(String, usize)>)
    ensures
        position_views(positions@) == vision_tensor_shard_positions(
            pair_views(vision_tensor_shard_file_names@),
            string_views(model_shard_file_names@),
        ),
{
    let ghost tensors = pair_views(vision_tensor_shard_file_names@);
    let ghost shards = string_views(model_shard_file_names@);
    let mut positions: Vec<(String, usize)> = Vec::new();
    let mut index: usize = 0;
    while index < vision_tensor_shard_file_names.len()
        invariant
            index <= vision_tensor_shard_file_names@.len(),
            tensors == pair_views(vision_tensor_shard_file_names@),
            shards == string_views(model_shard_file_names@),
            position_views(positions@) == vision_tensor_shard_positions(tensors.subrange(0, index as int), shards),
        decreases vision_tensor_shard_file_names.len() - index,
    {
        let name = &vision_tensor_shard_file_names[index].0;
        let file = &vision_tensor_shard_file_names[index].1;
        assert(tensors.subrange(0, index + 1).drop_last() =~= tensors.subrange(0, index as int));
        assert(tensors.subrange(0, index + 1).last() == (name@, file@));
        let ghost before = position_views(positions@);
        let ghost extended = tensors.subrange(0, index + 1);
        assert(vision_tensor_shard_positions(extended, shards) == match first_shard_position(shards, file@, 0) {
            Some(position) => before.push((name@, position)),
            None => before,
        });
        let shard_count = model_shard_file_names.len();
        proof {
            lemma_first_shard_position_in_range(shards, file@, 0);
            assert(shards.len() == shard_count);
        }
        match shard_position(model_shard_file_names, file) {
            Some(position) => {
                positions.push((name.clone(), position));
                assert(first_shard_position(shards, file@, 0) == Some(position as int));
                assert(position_views(positions@) =~= before.push((name@, position as int)));
            },
            None => {},
        }
        index += 1;
    }
    assert(tensors.subrange(0, index as int) =~= tensors);
    positions
}

proof fn lemma_first_shard_position_is_first(shards: Seq<Seq<char>>, file: Seq<char>, from: int)
    requires
        0 <= from,
    ensures
        first_shard_position(shards, file, from) matches Some(p) ==> from <= p < shards.len() && shards[p] == file
            && forall|i: int| from <= i < p ==> #[trigger] shards[i] != file,
        first_shard_position(shards, file, from) is None ==> forall|i: int|
            from <= i < shards.len() ==> #[trigger] shards[i] != file,
    decreases shards.len() - from,
{
    if from < shards.len() && shards[from] != file {
        lemma_first_shard_position_is_first(shards, file, from + 1);
    }
}

/// Shard-map law: each vision tensor whose file is a model shard is placed, in listing
/// order, at the first position of that file among the shards; a tensor whose file is no
/// model shard is left out; nothing else is placed.
pub proof fn lemma_vision_tensors_map_to_their_first_shard(
    vision_tensors: Seq<(Seq<char>, Seq<char>)>,
    shards: Seq<Seq<char>>,
)
    ensures
        vision_tensor_shard_positions(vision_tensors, shards).len() <= vision_tensors.len(),
        forall|k: int|
            0 <= k < vision_tensor_shard_positions(vision_tensors, shards).len() ==> exists|t: int|
                0 <= t < vision_tensors.len() && (#[trigger] vision_tensor_shard_positions(vision_tensors, shards)[k]).0
                    == vision_tensors[t].0 && {
                    let p = vision_tensor_shard_positions(vision_tensors, shards)[k].1;
                    &&& 0 <= p < shards.len()
                    &&& shards[p] == vision_tensors[t].1
                    &&& forall|i: int| 0 <= i < p ==> #[trigger] shards[i] != vision_tensors[t].1
                },
        (forall|t: int| 0 <= t < vision_tensors.len() ==> !shards.contains(#[trigger] vision_tensors[t].1))
            ==> vision_tensor_shard_positions(vision_tensors, shards).len() == 0,
        (forall|t: int| 0 <= t < vision_tensors.len() ==> shards.contains(#[trigger] vision_tensors[t].1))
            ==> vision_tensor_shard_positions(vision_tensors, shards).len() == vision_tensors.len(),
    decreases vision_tensors.len(),
{
    if vision_tensors.len() > 0 {
        let rest = vision_tensors.drop_last();
        lemma_vision_tensors_map_to_their_first_shard(rest, shards);
        let (name, file) = vision_tensors.last();
        lemma_first_shard_position_is_first(shards, file, 0);
        let previous = vision_tensor_shard_positions(rest, shards);
        let result = vision_tensor_shard_positions(vision_tensors, shards);
        assert forall|k: int| 0 <= k < result.len() implies exists|t: int|
            0 <= t < vision_tensors.len() && (#[trigger] result[k]).0 == vision_tensors[t].0 && {
                let p = result[k].1;
                &&& 0 <= p < shards.len()
                &&& shards[p] == vision_tensors[t].1
                &&& forall|i: int| 0 <= i < p ==> #[trigger] shards[i] != vision_tensors[t].1
            } by {
            if k < previous.len() {
                assert(result[k] == previous[k]);
                let t = choose|t: int|
                    0 <= t < rest.len() && (#[trigger] previous[k]).0 == rest[t].0 && {
                        let p = previous[k].1;
                        &&& 0 <= p < shards.len()
                        &&& shards[p] == rest[t].1
                        &&& forall|i: int| 0 <= i < p ==> #[trigger] shards[i] != rest[t].1
                    };
                assert(rest[t] == vision_tensors[t]);
            } else {
                let t = vision_tensors.len() - 1;
                assert(vision_tensors[t] == (name, file));
            }
        }
        if forall|t: int| 0 <= t < vision_tensors.len() ==> !shards.contains(#[trigger] vision_tensors[t].1) {
            assert forall|t: int| 0 <= t < rest.len() implies !shards.contains(#[trigger] rest[t].1) by {
                assert(rest[t] == vision_tensors[t]);
            }
            assert(!shards.contains(vision_tensors[vision_tensors.len() - 1].1));
            if first_shard_position(shards, file, 0) is Some {
                let p = first_shard_position(shards, file, 0)->0;
                assert(shards[p] == file);
            }
        }
        if forall|t: int| 0 <= t < vision_tensors.len() ==> shards.contains(#[trigger] vision_tensors[t].1) {
            assert forall|t: int| 0 <= t < rest.len() implies shards.contains(#[trigger] rest[t].1) by {
                assert(rest[t] == vision_tensors[t]);
            }
            assert(shards.contains(vision_tensors[vision_tensors.len() - 1].1));
            let j = choose|j: int| 0 <= j < shards.len() && shards[j] == file;
            assert(shards[j] == file);
        }
    }
}

} // verus!
