//! The adapter to the external block/property registry.
//!
//! The registry is the authority that maps a block-kind identifier to the
//! kind's default block state and that applies a named property to a state.
//! Block states are carried through the importer as the registry's raw state
//! ids (`u16`).  The two calls into the registry stand behind trusted
//! wrappers; everything around them — identifier normalization, the default
//! for unknown identifiers, and the fold that applies a voxel's tags — is
//! verified.

use vstd::prelude::*;

use crate::props::{resolve, resolve_spec, PropName, PropValue};
use crate::tags::DanBlockData;

verus! {

/// The default block state id of the registry kind with the given
/// snake_case name, or none if no kind has that name.
pub uninterp spec fn spec_kind_state(name: Seq<char>) -> Option<u16>;

/// Relies on the registry's `BlockKind::from_str` and `BlockKind::to_state`:
/// looks the snake_case kind name up and returns the raw id of the kind's
/// default block state, or none for an unknown name.  The result depends on
/// the name alone.
#[verifier::external_body]
fn kind_state_lookup(name: &str) -> (r: Option<u16>)
    ensures
        r == spec_kind_state(name@),
{
    valence::block::BlockKind::from_str(name).map(|k| k.to_state().to_raw())
}

/// The result of applying the property `name` with value `value`, both by
/// their snake_case names, to the block state with raw id `state`.
pub uninterp spec fn spec_raw_set_prop(state: u16, name: Seq<char>, value: Seq<char>) -> u16;

/// Relies on the registry's `BlockState::set`: applies a property by name
/// and value to the state with the given raw id.  The registry returns the
/// state unchanged when the property or value does not apply to the state's
/// block kind; that no-op contract is load-bearing for the double half
/// vocabulary write of [`crate::props::resolve`].  `PropName::from_str`,
/// `PropValue::from_str` and `BlockState::from_raw` convert the arguments;
/// an unknown name or value or an invalid raw id also leaves the state
/// unchanged.  The result depends on the arguments alone.
#[verifier::external_body]
fn raw_set_prop(state: u16, name: &str, value: &str) -> (r: u16)
    ensures
        r == spec_raw_set_prop(state, name@, value@),
{
    match (
        valence::block::BlockState::from_raw(state),
        valence::block::PropName::from_str(name),
        valence::block::PropValue::from_str(value),
    ) {
        (Some(s), Some(n), Some(v)) => s.set(n, v).to_raw(),
        _ => state,
    }
}

/// The identifier with a leading `minecraft:` namespace removed; an
/// identifier without that namespace is kept as it is.
pub open spec fn spec_strip_namespace(s: Seq<char>) -> Seq<char> {
    if s.len() >= 10 && s.subrange(0, 10) == "minecraft:"@ {
        s.subrange(10, s.len() as int)
    } else {
        s
    }
}

/// Removes a leading `minecraft:` namespace from a block-kind identifier;
/// the registry knows its kinds by their bare snake_case names.
pub fn strip_namespace(s: &str) -> (r: &str)
    ensures
        r@ == spec_strip_namespace(s@),
{
    let n = s.unicode_len();
    if n < 10 {
        return s;
    }
    let lit = "minecraft:";
    proof {
        reveal_strlit("minecraft:");
    }
    let mut i: usize = 0;
    let mut same: bool = true;
    while i < 10
        invariant
            i <= 10,
            n == s@.len(),
            10 <= n,
            lit@ == "minecraft:"@,
            "minecraft:"@.len() == 10,
            same <==> (forall|j: int| 0 <= j < i ==> s@[j] == "minecraft:"@[j]),
        decreases 10 - i,
    {
        let a = s.get_char(i);
        let b = lit.get_char(i);
        if a != b {
            same = false;
        }
        i = i + 1;
    }
    if same {
        proof {
            assert(s@.subrange(0, 10) =~= "minecraft:"@);
        }
        s.substring_char(10, n)
    } else {
        proof {
            if s@.subrange(0, 10) == "minecraft:"@ {
                assert forall|j: int| 0 <= j < 10 implies s@[j] == "minecraft:"@[j] by {
                    assert(s@.subrange(0, 10)[j] == s@[j]);
                }
            }
        }
        s
    }
}

/// The block state substituted for a voxel whose palette entry is unknown
/// or whose palette index is out of range: the default state of the podzol
/// filler kind.
pub open spec fn spec_filler_state() -> u16 {
    match spec_kind_state("podzol"@) {
        Some(s) => s,
        None => 0,
    }
}

/// The deterministic filler block state used wherever a voxel cannot be
/// resolved from its palette.
pub fn filler_state() -> (r: u16)
    ensures
        r == spec_filler_state(),
{
    match kind_state_lookup("podzol") {
        Some(s) => s,
        None => 0,
    }
}

/// The block state a block-kind identifier resolves to: the named kind's
/// default state after namespace normalization, or the filler state for an
/// unknown identifier.
pub open spec fn spec_kind_state_for_identifier(name: Seq<char>) -> u16 {
    match spec_kind_state(spec_strip_namespace(name)) {
        Some(s) => s,
        None => spec_filler_state(),
    }
}

/// Resolves a block-kind identifier to its default block state id, falling
/// back to the filler state for identifiers the registry does not know.
pub fn kind_state_for_identifier(name: &str) -> (r: u16)
    ensures
        r == spec_kind_state_for_identifier(name@),
{
    let bare = strip_namespace(name);
    match kind_state_lookup(bare) {
        Some(s) => s,
        None => filler_state(),
    }
}

/// The state after applying one resolved property write.
pub open spec fn spec_apply_write(state: u16, w: (PropName, PropValue)) -> u16 {
    spec_raw_set_prop(state, w.0.chars(), w.1.chars())
}

/// The state after applying a sequence of resolved property writes in
/// order; a later write to the same property wins.
pub open spec fn spec_apply_writes(state: u16, ws: Seq<(PropName, PropValue)>) -> u16
    decreases ws.len(),
{
    if ws.len() == 0 {
        state
    } else {
        spec_apply_writes(spec_apply_write(state, ws[0]), ws.drop_first())
    }
}

/// The state after resolving a voxel's tags in order and applying every
/// property write each tag stands for.
pub open spec fn spec_set_props(state: u16, tags: Seq<DanBlockData>) -> u16
    decreases tags.len(),
{
    if tags.len() == 0 {
        state
    } else {
        spec_set_props(spec_apply_writes(state, resolve_spec(tags[0])), tags.drop_first())
    }
}

/// Applies a sequence of resolved property writes to a block state in order.
fn apply_writes(state: u16, ws: &Vec<(PropName, PropValue)>) -> (r: u16)
    ensures
        r == spec_apply_writes(state, ws@),
{
    let mut cur = state;
    let mut i: usize = 0;
    proof {
        assert(ws@.skip(0) =~= ws@);
    }
    while i < ws.len()
        invariant
            i <= ws@.len(),
            spec_apply_writes(state, ws@) == spec_apply_writes(cur, ws@.skip(i as int)),
        decreases ws@.len() - i,
    {
        proof {
            assert(ws@.skip(i as int)[0] == ws@[i as int]);
            assert(ws@.skip(i as int).drop_first() =~= ws@.skip(i as int + 1));
        }
        let (name, value) = ws[i];
        cur = raw_set_prop(cur, name.text(), value.text());
        i = i + 1;
    }
    proof {
        assert(ws@.skip(ws@.len() as int) =~= Seq::<(PropName, PropValue)>::empty());
    }
    cur
}

/// Applies every tag of a voxel to a block state: each tag is resolved to
/// its property writes and the writes are applied in order.
pub fn set_props(state: u16, tags: &Vec<DanBlockData>) -> (r: u16)
    ensures
        r == spec_set_props(state, tags@),
{
    let mut cur = state;
    let mut i: usize = 0;
    proof {
        assert(tags@.skip(0) =~= tags@);
    }
    while i < tags.len()
        invariant
            i <= tags@.len(),
            spec_set_props(state, tags@) == spec_set_props(cur, tags@.skip(i as int)),
        decreases tags@.len() - i,
    {
        proof {
            assert(tags@.skip(i as int)[0] == tags@[i as int]);
            assert(tags@.skip(i as int).drop_first() =~= tags@.skip(i as int + 1));
        }
        let ws = resolve(&tags[i]);
        cur = apply_writes(cur, &ws);
        i = i + 1;
    }
    proof {
        assert(tags@.skip(tags@.len() as int) =~= Seq::<DanBlockData>::empty());
    }
    cur
}

/// Law: a voxel with no tags keeps its bare palette block state — applying
/// an empty tag list changes nothing.
pub proof fn lemma_no_tags_no_change(state: u16)
    ensures
        spec_set_props(state, Seq::<DanBlockData>::empty()) == state,
{
}

} // verus!
