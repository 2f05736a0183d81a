//! The handle of a new replay: the number of descriptors already in the
//! replay folder.
use vstd::prelude::*;
use vstd::string::StrSliceExecFns;

verus! {

/// Whether a folder entry's name carries the descriptor extension `dmx`:
/// it ends in `.dmx` and something stands before that dot.
pub open spec fn is_descriptor_name(name: Seq<char>) -> bool {
    &&& name.len() > 4
    &&& name[name.len() - 4] == '.'
    &&& name[name.len() - 3] == 'd'
    &&& name[name.len() - 2] == 'm'
    &&& name[name.len() - 1] == 'x'
}

/// The number of descriptor names among `names`.
pub open spec fn descriptor_count(names: Seq<String>) -> nat
    decreases names.len(),
{
    if names.len() == 0 {
        0
    } else {
        descriptor_count(names.drop_last()) + if is_descriptor_name(names.last()@) {
            1nat
        } else {
            0nat
        }
    }
}

/// Whether one folder entry name is a descriptor.
pub fn is_descriptor_entry(name: &str) -> (r: bool)
    ensures
        r == is_descriptor_name(name@),
{
    let n = name.unicode_len();
    n > 4 && name.get_char(n - 4) == '.' && name.get_char(n - 3) == 'd' && name.get_char(n - 2)
        == 'm' && name.get_char(n - 1) == 'x'
}

/// The handle for a new replay, from the names of the entries of the replay
/// folder: the number of them that are descriptors.
pub fn next_handle(entry_names: &Vec<String>) -> (r: usize)
    ensures
        r == descriptor_count(entry_names@),
{
    let mut count: usize = 0;
    let mut i: usize = 0;
    while i < entry_names.len()
        invariant
            i <= entry_names@.len(),
            count == descriptor_count(entry_names@.subrange(0, i as int)),
            count <= i,
        decreases entry_names@.len() - i,
    {
        assert(entry_names@.subrange(0, i + 1).drop_last() =~= entry_names@.subrange(0, i as int));
        if is_descriptor_entry(entry_names[i].as_str()) {
            count = count + 1;
        }
        i = i + 1;
    }
    assert(entry_names@.subrange(0, i as int) =~= entry_names@);
    count
}

/// An empty folder gives handle zero, and an entry that is no descriptor
/// leaves the count where it was, wherever it stands: the handle is the
/// number of descriptors, whatever else the folder holds.
pub proof fn lemma_count_ignores_other_entries(before: Seq<String>, other: String, after: Seq<
    String,
>)
    requires
        !is_descriptor_name(other@),
    ensures
        descriptor_count(Seq::<String>::empty()) == 0,
        descriptor_count(before + seq![other] + after) == descriptor_count(before + after),
    decreases after.len(),
{
    if after.len() == 0 {
        assert((before + seq![other] + after).drop_last() =~= before);
        assert(before + after =~= before);
    } else {
        lemma_count_ignores_other_entries(before, other, after.drop_last());
        assert((before + seq![other] + after).drop_last() =~= before + seq![other]
            + after.drop_last());
        assert((before + after).drop_last() =~= before + after.drop_last());
    }
}

/// A descriptor entry adds one to the count, wherever it stands.
pub proof fn lemma_count_descriptor_entry(before: Seq<String>, entry: String, after: Seq<String>)
    requires
        is_descriptor_name(entry@),
    ensures
        descriptor_count(before + seq![entry] + after) == descriptor_count(before + after) + 1,
    decreases after.len(),
{
    if after.len() == 0 {
        assert((before + seq![entry] + after).drop_last() =~= before);
        assert(before + after =~= before);
    } else {
        lemma_count_descriptor_entry(before, entry, after.drop_last());
        assert((before + seq![entry] + after).drop_last() =~= before + seq![entry]
            + after.drop_last());
        assert((before + after).drop_last() =~= before + after.drop_last());
    }
}

} // verus!
