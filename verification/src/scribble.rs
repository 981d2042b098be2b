//! Finding the scribble pad that a touch detector belongs to, and the two
//! line spawners among that pad's children. Entities are given by their
//! 64-bit identifiers.
use vstd::prelude::*;

verus! {

/// A pad entity and its children, in the order the pad lists them.
pub struct PadEntry {
    pub pad: u64,
    pub children: Vec<u64>,
}

/// The pads of a world, and the entities that carry the complete-line and the
/// partial-line spawner markers.
pub struct ScribbleData {
    pub pads: Vec<PadEntry>,
    pub complete_spawners: Vec<u64>,
    pub partial_spawners: Vec<u64>,
}

/// A pad together with the spawners of complete and of partial lines chosen
/// among its children, and how many of its children carry each marker (more
/// than one is an internal error worth reporting).
#[derive(Debug, Clone, Copy, PartialEq, Eq, Structural)]
pub struct PadData {
    pub pad: u64,
    pub complete_spawner: u64,
    pub partial_spawner: u64,
    pub complete_spawners_found: usize,
    pub partial_spawners_found: usize,
}

/// How many of `children` are among `marked`.
pub open spec fn marked_count(children: Seq<u64>, marked: Seq<u64>) -> nat
    decreases children.len(),
{
    if children.len() == 0 {
        0
    } else {
        (if marked.contains(children[0]) { 1nat } else { 0nat }) + marked_count(children.drop_first(), marked)
    }
}

/// The first pad (in the order given) one of whose children is `detector`.
pub open spec fn first_pad_with_child(pads: Seq<PadEntry>, detector: u64) -> Option<PadEntry>
    decreases pads.len(),
{
    if pads.len() == 0 {
        None
    } else if pads[0].children@.contains(detector) {
        Some(pads[0])
    } else {
        first_pad_with_child(pads.drop_first(), detector)
    }
}

/// The first of `children` that is one of `marked`.
pub open spec fn first_marked(children: Seq<u64>, marked: Seq<u64>) -> Option<u64>
    decreases children.len(),
{
    if children.len() == 0 {
        None
    } else if marked.contains(children[0]) {
        Some(children[0])
    } else {
        first_marked(children.drop_first(), marked)
    }
}

/// The pad found for a detector is one of the pads, and the detector is one
/// of its children.
pub proof fn lemma_found_pad_holds_detector(pads: Seq<PadEntry>, detector: u64)
    ensures
        first_pad_with_child(pads, detector) matches Some(p) ==> pads.contains(p) && p.children@.contains(detector),
        first_pad_with_child(pads, detector) is None ==> forall|i: int| 0 <= i < pads.len() ==> !(#[trigger] pads[i]).children@.contains(detector),
    decreases pads.len(),
{
    if pads.len() > 0 {
        let rest = pads.drop_first();
        lemma_found_pad_holds_detector(rest, detector);
        if first_pad_with_child(pads, detector) is None {
            assert forall|i: int| 0 <= i < pads.len() implies !(#[trigger] pads[i]).children@.contains(detector) by {
                if i > 0 {
                    assert(pads[i] == rest[i - 1]);
                }
            }
        }
        if let Some(p) = first_pad_with_child(rest, detector) {
            let j = choose|j: int| 0 <= j < rest.len() && rest[j] == p;
            assert(pads[j + 1] == p);
        }
    }
}

/// A child chosen as spawner is a child and carries the marker; when none is
/// chosen, no child carries it.
pub proof fn lemma_first_marked(children: Seq<u64>, marked: Seq<u64>)
    ensures
        first_marked(children, marked) matches Some(c) ==> children.contains(c) && marked.contains(c),
        first_marked(children, marked) is None ==> forall|i: int| 0 <= i < children.len() ==> !marked.contains(#[trigger] children[i]),
    decreases children.len(),
{
    if children.len() > 0 {
        let rest = children.drop_first();
        lemma_first_marked(rest, marked);
        if first_marked(children, marked) is None {
            assert forall|i: int| 0 <= i < children.len() implies !marked.contains(#[trigger] children[i]) by {
                if i > 0 {
                    assert(children[i] == rest[i - 1]);
                }
            }
        }
        if let Some(c) = first_marked(rest, marked) {
            let j = choose|j: int| 0 <= j < rest.len() && rest[j] == c;
            assert(children[j + 1] == c);
        }
    }
}

proof fn lemma_first_pad_at(pads: Seq<PadEntry>, detector: u64, i: int)
    requires
        0 <= i < pads.len(),
        pads[i].children@.contains(detector),
        forall|j: int| 0 <= j < i ==> !(#[trigger] pads[j]).children@.contains(detector),
    ensures
        first_pad_with_child(pads, detector) == Some(pads[i]),
    decreases pads.len(),
{
    if i > 0 {
        let rest = pads.drop_first();
        assert(!pads[0].children@.contains(detector));
        assert forall|j: int| 0 <= j < i - 1 implies !(#[trigger] rest[j]).children@.contains(detector) by {
            assert(rest[j] == pads[j + 1]);
        }
        lemma_first_pad_at(rest, detector, i - 1);
    }
}

/// The first marked child is the marked child with no marked child before it,
/// wherever it stands among the children.
proof fn lemma_first_marked_least(children: Seq<u64>, marked: Seq<u64>)
    ensures
        first_marked(children, marked) matches Some(c) ==> exists|k: int| 0 <= k < children.len()
            && #[trigger] children[k] == c && marked.contains(c)
            && forall|j: int| 0 <= j < k ==> !marked.contains(#[trigger] children[j]),
    decreases children.len(),
{
    if children.len() > 0 {
        let rest = children.drop_first();
        lemma_first_marked_least(rest, marked);
        if !marked.contains(children[0]) {
            if let Some(c) = first_marked(rest, marked) {
                let k = choose|k: int| 0 <= k < rest.len() && #[trigger] rest[k] == c && marked.contains(c)
                    && forall|j: int| 0 <= j < k ==> !marked.contains(#[trigger] rest[j]);
                assert(children[k + 1] == c);
                assert forall|j: int| 0 <= j < k + 1 implies !marked.contains(#[trigger] children[j]) by {
                    if j > 0 {
                        assert(children[j] == rest[j - 1]);
                    }
                }
            }
        } else {
            assert(children[0] == children[0]);
        }
    }
}

fn contains_entity(entities: &Vec<u64>, e: u64) -> (r: bool)
    ensures
        r == entities@.contains(e),
{
    let mut i: usize = 0;
    while i < entities.len()
        invariant
            i <= entities.len(),
            forall|j: int| 0 <= j < i ==> entities@[j] != e,
        decreases entities.len() - i,
    {
        if entities[i] == e {
            return true;
        }
        i = i + 1;
    }
    false
}

fn count_marked_children(children: &Vec<u64>, marked: &Vec<u64>) -> (r: usize)
    ensures
        r == marked_count(children@, marked@),
{
    let mut i: usize = 0;
    let mut count: usize = 0;
    assert(children@.skip(0) =~= children@);
    while i < children.len()
        invariant
            i <= children.len(),
            count <= i,
            marked_count(children@, marked@) == count + marked_count(children@.skip(i as int), marked@),
        decreases children.len() - i,
    {
        assert(children@.skip(i as int)[0] == children@[i as int]);
        assert(children@.skip(i as int).drop_first() =~= children@.skip(i + 1));
        if contains_entity(marked, children[i]) {
            count = count + 1;
        }
        i = i + 1;
    }
    count
}

fn first_marked_child(children: &Vec<u64>, marked: &Vec<u64>) -> (r: Option<u64>)
    ensures
        r == first_marked(children@, marked@),
{
    let mut i: usize = 0;
    assert(children@.skip(0) =~= children@);
    while i < children.len()
        invariant
            i <= children.len(),
            first_marked(children@, marked@) == first_marked(children@.skip(i as int), marked@),
        decreases children.len() - i,
    {
        assert(children@.skip(i as int)[0] == children@[i as int]);
        if contains_entity(marked, children[i]) {
            return Some(children[i]);
        }
        assert(children@.skip(i as int).drop_first() =~= children@.skip(i + 1));
        i = i + 1;
    }
    None
}

impl ScribbleData {
    /// The index of the pad that `pad_entity_from_detector` finds.
    fn pad_index_from_detector(&self, detector_entity: u64) -> (r: Option<usize>)
        ensures
            match r {
                Some(i) => i < self.pads@.len() && first_pad_with_child(self.pads@, detector_entity) == Some(self.pads@[i as int]),
                None => first_pad_with_child(self.pads@, detector_entity) is None,
            },
    {
        let mut i: usize = 0;
        assert(self.pads@.skip(0) =~= self.pads@);
        while i < self.pads.len()
            invariant
                i <= self.pads@.len(),
                first_pad_with_child(self.pads@, detector_entity) == first_pad_with_child(self.pads@.skip(i as int), detector_entity),
            decreases self.pads@.len() - i,
        {
            assert(self.pads@.skip(i as int)[0] == self.pads@[i as int]);
            if contains_entity(&self.pads[i].children, detector_entity) {
                return Some(i);
            }
            assert(self.pads@.skip(i as int).drop_first() =~= self.pads@.skip(i + 1));
            i = i + 1;
        }
        None
    }

    pub open spec fn spec_pad_entity_from_detector(&self, detector_entity: u64) -> Option<u64> {
        match first_pad_with_child(self.pads@, detector_entity) {
            Some(p) => Some(p.pad),
            None => None,
        }
    }

    pub open spec fn spec_with_detector(&self, detector_entity: u64) -> Option<PadData> {
        match first_pad_with_child(self.pads@, detector_entity) {
            None => None,
            Some(p) => match (
                first_marked(p.children@, self.complete_spawners@),
                first_marked(p.children@, self.partial_spawners@),
            ) {
                (Some(c), Some(q)) => Some(PadData {
                    pad: p.pad,
                    complete_spawner: c,
                    partial_spawner: q,
                    complete_spawners_found: marked_count(p.children@, self.complete_spawners@) as usize,
                    partial_spawners_found: marked_count(p.children@, self.partial_spawners@) as usize,
                }),
                _ => None,
            },
        }
    }

    /// The pad of which `detector_entity` is a child.
    pub fn pad_entity_from_detector(&self, detector_entity: u64) -> (r: Option<u64>)
        ensures
            r == self.spec_pad_entity_from_detector(detector_entity),
    {
        match self.pad_index_from_detector(detector_entity) {
            Some(i) => Some(self.pads[i].pad),
            None => None,
        }
    }

    /// Constructs [PadData] from the detector entity: its pad, and the first
    /// child of that pad marked as a complete-line spawner and the first marked
    /// as a partial-line spawner, with the number of children carrying each
    /// marker. `None` when the pad or either spawner is missing.
    pub fn with_detector(&self, detector_entity: u64) -> (r: Option<PadData>)
        ensures
            r == self.spec_with_detector(detector_entity),
    {
        let i = match self.pad_index_from_detector(detector_entity) {
            Some(i) => i,
            None => return None,
        };
        let entry = &self.pads[i];
        let complete_spawner = match first_marked_child(&entry.children, &self.complete_spawners) {
            Some(c) => c,
            None => return None,
        };
        let partial_spawner = match first_marked_child(&entry.children, &self.partial_spawners) {
            Some(q) => q,
            None => return None,
        };
        let complete_spawners_found = count_marked_children(&entry.children, &self.complete_spawners);
        let partial_spawners_found = count_marked_children(&entry.children, &self.partial_spawners);
        Some(PadData { pad: entry.pad, complete_spawner, partial_spawner, complete_spawners_found, partial_spawners_found })
    }
}

/// What `with_detector` finds agrees with `pad_entity_from_detector`: the same
/// pad, which has the detector among its children, and two spawners that are
/// children of that pad carrying the complete-line and the partial-line marker.
pub proof fn lemma_pad_data_consistent(data: ScribbleData, detector: u64)
    ensures
        data.spec_with_detector(detector) matches Some(found) ==> {
            &&& data.spec_pad_entity_from_detector(detector) == Some(found.pad)
            &&& exists|p: PadEntry| #![trigger data.pads@.contains(p)] {
                &&& data.pads@.contains(p)
                &&& p.pad == found.pad
                &&& p.children@.contains(detector)
                &&& p.children@.contains(found.complete_spawner)
                &&& p.children@.contains(found.partial_spawner)
                &&& data.complete_spawners@.contains(found.complete_spawner)
                &&& data.partial_spawners@.contains(found.partial_spawner)
            }
        },
{
    lemma_found_pad_holds_detector(data.pads@, detector);
    if let Some(p) = first_pad_with_child(data.pads@, detector) {
        lemma_first_marked(p.children@, data.complete_spawners@);
        lemma_first_marked(p.children@, data.partial_spawners@);
        assert(data.pads@.contains(p));
    }
}

/// The pad lookup finds a pad whenever some pad has the detector among its
/// children, wherever the detector stands among them: the first such pad.
/// It finds none only when no pad has the detector.
pub proof fn lemma_pad_lookup_complete(data: ScribbleData, detector: u64, i: int)
    requires
        0 <= i < data.pads@.len(),
        data.pads@[i].children@.contains(detector),
    ensures
        data.spec_pad_entity_from_detector(detector) is Some,
        (forall|j: int| 0 <= j < i ==> !(#[trigger] data.pads@[j]).children@.contains(detector))
            ==> data.spec_pad_entity_from_detector(detector) == Some(data.pads@[i].pad),
{
    lemma_found_pad_holds_detector(data.pads@, detector);
    if forall|j: int| 0 <= j < i ==> !(#[trigger] data.pads@[j]).children@.contains(detector) {
        lemma_first_pad_at(data.pads@, detector, i);
    }
}

/// `with_detector` finds the pad data whenever the first pad holding the
/// detector has a child marked as complete-line spawner and one marked as
/// partial-line spawner, wherever they and the detector stand among the
/// children; the spawners it gives are the first marked children.
pub proof fn lemma_with_detector_complete(data: ScribbleData, detector: u64, i: int, complete: u64, partial: u64)
    requires
        0 <= i < data.pads@.len(),
        data.pads@[i].children@.contains(detector),
        forall|j: int| 0 <= j < i ==> !(#[trigger] data.pads@[j]).children@.contains(detector),
        data.pads@[i].children@.contains(complete),
        data.complete_spawners@.contains(complete),
        data.pads@[i].children@.contains(partial),
        data.partial_spawners@.contains(partial),
    ensures
        data.spec_with_detector(detector) matches Some(found) && {
            let children = data.pads@[i].children@;
            &&& found.pad == data.pads@[i].pad
            &&& exists|k: int| 0 <= k < children.len() && #[trigger] children[k] == found.complete_spawner
                && data.complete_spawners@.contains(found.complete_spawner)
                && forall|j: int| 0 <= j < k ==> !data.complete_spawners@.contains(#[trigger] children[j])
            &&& exists|k: int| 0 <= k < children.len() && #[trigger] children[k] == found.partial_spawner
                && data.partial_spawners@.contains(found.partial_spawner)
                && forall|j: int| 0 <= j < k ==> !data.partial_spawners@.contains(#[trigger] children[j])
        },
{
    lemma_first_pad_at(data.pads@, detector, i);
    let children = data.pads@[i].children@;
    lemma_first_marked(children, data.complete_spawners@);
    lemma_first_marked(children, data.partial_spawners@);
    lemma_first_marked_least(children, data.complete_spawners@);
    lemma_first_marked_least(children, data.partial_spawners@);
    let kc = choose|k: int| 0 <= k < children.len() && children[k] == complete;
    let kp = choose|k: int| 0 <= k < children.len() && children[k] == partial;
    assert(data.complete_spawners@.contains(children[kc]));
    assert(data.partial_spawners@.contains(children[kp]));
}

} // verus!
