//! Choosing, for each role, the adapter and the queue family that serve it.

use crate::adapter::{AdapterCandidate, QueueFamily};
use vstd::prelude::*;
use vulkano::device::DeviceExtensions;

verus! {

/// What a queue is used for.
#[derive(Clone, Copy, Debug, PartialEq, Eq, Structural)]
pub enum Role {
    Graphics,
    Compute,
}

/// Why no selection could be made.
#[derive(Clone, Copy, Debug, PartialEq, Eq, Structural)]
pub enum SelectError {
    /// No adapter supports the required extensions.
    NoSuitableAdapter,
    /// Some adapter supports the required extensions, but none of those has
    /// a queue family for the role.
    NoSuitableQueueFamily(Role),
}

/// The adapter and family chosen for each role, by position: an adapter by
/// its position in the list of candidates, a family by its position among
/// the families of its adapter.
#[derive(Clone, Copy, Debug, PartialEq, Eq, Structural)]
pub struct Selection {
    pub graphics_adapter: usize,
    pub graphics_family: usize,
    pub compute_adapter: usize,
    pub compute_family: usize,
}

impl Selection {
    /// Whether both adapters are positions in `adapters` and both families
    /// are positions among the families of their adapter.
    pub open spec fn fits(&self, adapters: Seq<AdapterCandidate>) -> bool {
        &&& self.graphics_adapter < adapters.len()
        &&& self.graphics_family < adapters[self.graphics_adapter as int].families@.len()
        &&& self.compute_adapter < adapters.len()
        &&& self.compute_family < adapters[self.compute_adapter as int].families@.len()
    }

    /// Decides whether the selection names adapters and families of
    /// `adapters`.
    pub fn is_valid_for(&self, adapters: &Vec<AdapterCandidate>) -> (valid: bool)
        ensures
            valid == self.fits(adapters@),
    {
        self.graphics_adapter < adapters.len() && self.graphics_family
            < adapters[self.graphics_adapter].families.len() && self.compute_adapter
            < adapters.len() && self.compute_family < adapters[self.compute_adapter].families.len()
    }
}

impl QueueFamily {
    /// Whether queues of this family can serve `role`: graphics work must
    /// also be presentable, compute work needs compute capability only.
    pub open spec fn suits(self, role: Role) -> bool {
        match role {
            Role::Graphics => self.graphics && self.presentation,
            Role::Compute => self.compute,
        }
    }

    /// Decides whether queues of this family can serve `role`.
    pub fn serves(&self, role: Role) -> (suited: bool)
        ensures
            suited == self.suits(role),
    {
        match role {
            Role::Graphics => self.graphics && self.presentation,
            Role::Compute => self.compute,
        }
    }
}

/// Whether `f` is the position of the first family that suits `role`.
pub open spec fn is_first_family(families: Seq<QueueFamily>, role: Role, f: int) -> bool {
    &&& 0 <= f < families.len()
    &&& families[f].suits(role)
    &&& forall|k: int| 0 <= k < f ==> !(#[trigger] families[k]).suits(role)
}

/// Whether some family suits `role`.
pub open spec fn has_family(families: Seq<QueueFamily>, role: Role) -> bool {
    exists|f: int| 0 <= f < families.len() && (#[trigger] families[f]).suits(role)
}

/// The position of the first family that suits `role`, where there is one.
pub open spec fn first_family(families: Seq<QueueFamily>, role: Role) -> int {
    choose|f: int| is_first_family(families, role, f)
}

/// Whether the adapter at position `i` supports the required extensions.
pub open spec fn compatible_at(
    adapters: Seq<AdapterCandidate>,
    required: DeviceExtensions,
    i: int,
) -> bool {
    0 <= i < adapters.len() && adapters[i].supports(required)
}

/// Whether the adapter at position `i` supports the required extensions and
/// has a family that suits `role`.
pub open spec fn eligible_at(
    adapters: Seq<AdapterCandidate>,
    required: DeviceExtensions,
    role: Role,
    i: int,
) -> bool {
    compatible_at(adapters, required, i) && has_family(adapters[i].families@, role)
}

/// Whether some adapter supports the required extensions.
pub open spec fn some_compatible(
    adapters: Seq<AdapterCandidate>,
    required: DeviceExtensions,
) -> bool {
    exists|i: int| compatible_at(adapters, required, i)
}

/// Whether some adapter is eligible for `role`.
pub open spec fn some_eligible(
    adapters: Seq<AdapterCandidate>,
    required: DeviceExtensions,
    role: Role,
) -> bool {
    exists|i: int| eligible_at(adapters, required, role, i)
}

/// Whether `i` is the best adapter for `role` among the first `n`: it is
/// eligible, no eligible adapter among them has a lower rank, and every
/// eligible adapter before it has a higher rank.
pub open spec fn is_best_among(
    adapters: Seq<AdapterCandidate>,
    required: DeviceExtensions,
    role: Role,
    n: int,
    i: int,
) -> bool {
    &&& 0 <= i < n
    &&& eligible_at(adapters, required, role, i)
    &&& forall|j: int|
        0 <= j < n && #[trigger] eligible_at(adapters, required, role, j) ==> {
            &&& adapters[i].class.rank() <= adapters[j].class.rank()
            &&& j < i ==> adapters[i].class.rank() < adapters[j].class.rank()
        }
}

/// Whether `i` is the best adapter for `role` in the whole list.
pub open spec fn is_best(
    adapters: Seq<AdapterCandidate>,
    required: DeviceExtensions,
    role: Role,
    i: int,
) -> bool {
    is_best_among(adapters, required, role, adapters.len() as int, i)
}

/// The position of the best adapter for `role`, where one is eligible.
pub open spec fn best_adapter(
    adapters: Seq<AdapterCandidate>,
    required: DeviceExtensions,
    role: Role,
) -> int {
    choose|i: int| is_best(adapters, required, role, i)
}

/// The outcome of a selection: the best adapter and its first suitable
/// family for each role, or the reason why there is none. The graphics role
/// is looked at first.
pub open spec fn select_spec(
    adapters: Seq<AdapterCandidate>,
    required: DeviceExtensions,
) -> Result<Selection, SelectError> {
    if !some_compatible(adapters, required) {
        Err(SelectError::NoSuitableAdapter)
    } else if !some_eligible(adapters, required, Role::Graphics) {
        Err(SelectError::NoSuitableQueueFamily(Role::Graphics))
    } else if !some_eligible(adapters, required, Role::Compute) {
        Err(SelectError::NoSuitableQueueFamily(Role::Compute))
    } else {
        let graphics = best_adapter(adapters, required, Role::Graphics);
        let compute = best_adapter(adapters, required, Role::Compute);
        Ok(
            Selection {
                graphics_adapter: graphics as usize,
                graphics_family: first_family(adapters[graphics].families@, Role::Graphics) as usize,
                compute_adapter: compute as usize,
                compute_family: first_family(adapters[compute].families@, Role::Compute) as usize,
            },
        )
    }
}

/// At most one family is the first that suits a role.
pub proof fn lemma_first_family_unique(families: Seq<QueueFamily>, role: Role, f: int, g: int)
    requires
        is_first_family(families, role, f),
        is_first_family(families, role, g),
    ensures
        f == g,
{
    if f < g {
        assert(!families[f].suits(role));
    } else if g < f {
        assert(!families[g].suits(role));
    }
}

/// At most one adapter is the best for a role.
pub proof fn lemma_best_unique(
    adapters: Seq<AdapterCandidate>,
    required: DeviceExtensions,
    role: Role,
    n: int,
    i: int,
    j: int,
)
    requires
        is_best_among(adapters, required, role, n, i),
        is_best_among(adapters, required, role, n, j),
    ensures
        i == j,
{
}

/// Among the first `n` adapters one is the best for a role as soon as one
/// of them is eligible.
pub proof fn lemma_best_exists(
    adapters: Seq<AdapterCandidate>,
    required: DeviceExtensions,
    role: Role,
    n: int,
) -> (best: int)
    requires
        0 <= n <= adapters.len(),
        exists|i: int| 0 <= i < n && eligible_at(adapters, required, role, i),
    ensures
        is_best_among(adapters, required, role, n, best),
    decreases n,
{
    let last = n - 1;
    if exists|i: int| 0 <= i < last && eligible_at(adapters, required, role, i) {
        let earlier = lemma_best_exists(adapters, required, role, last);
        if eligible_at(adapters, required, role, last) && adapters[last].class.rank()
            < adapters[earlier].class.rank() {
            last
        } else {
            earlier
        }
    } else {
        last
    }
}

/// Finds the first family of an adapter that suits `role`.
pub fn find_family(families: &Vec<QueueFamily>, role: Role) -> (found: Option<usize>)
    ensures
        match found {
            Some(f) => is_first_family(families@, role, f as int),
            None => !has_family(families@, role),
        },
{
    let mut k: usize = 0;
    while k < families.len()
        invariant
            k <= families.len(),
            forall|m: int| 0 <= m < k ==> !(#[trigger] families@[m]).suits(role),
        decreases families.len() - k,
    {
        if families[k].serves(role) {
            return Some(k);
        }
        k += 1;
    }
    None
}

/// Finds the best adapter for `role` and its first suitable family.
pub fn select_for(adapters: &Vec<AdapterCandidate>, required: &DeviceExtensions, role: Role) -> (found:
    Option<(usize, usize)>)
    ensures
        match found {
            Some((a, f)) => {
                &&& is_best(adapters@, *required, role, a as int)
                &&& is_first_family(adapters@[a as int].families@, role, f as int)
            },
            None => !some_eligible(adapters@, *required, role),
        },
{
    let mut best: Option<(usize, usize)> = None;
    let mut i: usize = 0;
    while i < adapters.len()
        invariant
            i <= adapters.len(),
            match best {
                Some((a, f)) => {
                    &&& is_best_among(adapters@, *required, role, i as int, a as int)
                    &&& is_first_family(adapters@[a as int].families@, role, f as int)
                },
                None => forall|j: int| 0 <= j < i ==> !eligible_at(adapters@, *required, role, j),
            },
        decreases adapters.len() - i,
    {
        let candidate = &adapters[i];
        if candidate.is_compatible(required) {
            if let Some(f) = find_family(&candidate.families, role) {
                let better = match best {
                    Some((a, _)) => candidate.class.score() < adapters[a].class.score(),
                    None => true,
                };
                if better {
                    best = Some((i, f));
                }
            }
        }
        i += 1;
    }
    best
}

/// Decides whether some adapter supports the required extensions.
pub fn any_compatible(adapters: &Vec<AdapterCandidate>, required: &DeviceExtensions) -> (any: bool)
    ensures
        any == some_compatible(adapters@, *required),
{
    let mut i: usize = 0;
    while i < adapters.len()
        invariant
            i <= adapters.len(),
            forall|j: int| 0 <= j < i ==> !compatible_at(adapters@, *required, j),
        decreases adapters.len() - i,
    {
        if adapters[i].is_compatible(required) {
            assert(compatible_at(adapters@, *required, i as int));
            return true;
        }
        i += 1;
    }
    false
}

/// Selects the adapter and queue family for graphics and for compute, each
/// on its own: the adapters chosen may differ.
pub fn select(adapters: &Vec<AdapterCandidate>, required: &DeviceExtensions) -> (selected: Result<
    Selection,
    SelectError,
>)
    ensures
        selected == select_spec(adapters@, *required),
        selected matches Ok(s) ==> s.fits(adapters@),
{
    if !any_compatible(adapters, required) {
        return Err(SelectError::NoSuitableAdapter);
    }
    let graphics = match select_for(adapters, required, Role::Graphics) {
        Some(pair) => pair,
        None => {
            return Err(SelectError::NoSuitableQueueFamily(Role::Graphics));
        },
    };
    let compute = match select_for(adapters, required, Role::Compute) {
        Some(pair) => pair,
        None => {
            return Err(SelectError::NoSuitableQueueFamily(Role::Compute));
        },
    };
    proof {
        lemma_selected(adapters@, *required, Role::Graphics, graphics.0 as int, graphics.1 as int);
        lemma_selected(adapters@, *required, Role::Compute, compute.0 as int, compute.1 as int);
    }
    Ok(
        Selection {
            graphics_adapter: graphics.0,
            graphics_family: graphics.1,
            compute_adapter: compute.0,
            compute_family: compute.1,
        },
    )
}

/// The best adapter for a role and its first suitable family are the ones
/// that the selection names.
pub proof fn lemma_selected(
    adapters: Seq<AdapterCandidate>,
    required: DeviceExtensions,
    role: Role,
    a: int,
    f: int,
)
    requires
        is_best(adapters, required, role, a),
        is_first_family(adapters[a].families@, role, f),
    ensures
        some_eligible(adapters, required, role),
        best_adapter(adapters, required, role) == a,
        first_family(adapters[a].families@, role) == f,
{
    assert(eligible_at(adapters, required, role, a));
    let b = best_adapter(adapters, required, role);
    lemma_best_unique(adapters, required, role, adapters.len() as int, a, b);
    let g = first_family(adapters[a].families@, role);
    lemma_first_family_unique(adapters[a].families@, role, f, g);
}

/// Whether the adapter at position `a` is compatible and no compatible
/// adapter has a lower rank.
pub open spec fn is_lowest_compatible(
    adapters: Seq<AdapterCandidate>,
    required: DeviceExtensions,
    a: int,
) -> bool {
    &&& compatible_at(adapters, required, a)
    &&& forall|j: int| #[trigger]
        compatible_at(adapters, required, j) ==> adapters[a].class.rank()
            <= adapters[j].class.rank()
}

/// Whether some adapter of the lowest rank among the compatible ones is
/// eligible for `role`.
pub open spec fn lowest_compatible_serves(
    adapters: Seq<AdapterCandidate>,
    required: DeviceExtensions,
    role: Role,
) -> bool {
    exists|i: int| #[trigger]
        eligible_at(adapters, required, role, i) && is_lowest_compatible(adapters, required, i)
}

/// A selection succeeds exactly when each role has an eligible adapter, and
/// it then names, for each role, the best eligible adapter and the first
/// family of that adapter that suits the role.
pub proof fn lemma_selection_is_best(adapters: Seq<AdapterCandidate>, required: DeviceExtensions)
    requires
        adapters.len() <= usize::MAX,
    ensures
        select_spec(adapters, required) is Ok <==> some_eligible(adapters, required, Role::Graphics)
            && some_eligible(adapters, required, Role::Compute),
        select_spec(adapters, required) matches Ok(s) ==> {
            &&& is_best(adapters, required, Role::Graphics, s.graphics_adapter as int)
            &&& is_first_family(
                adapters[s.graphics_adapter as int].families@,
                Role::Graphics,
                s.graphics_family as int,
            )
            &&& is_best(adapters, required, Role::Compute, s.compute_adapter as int)
            &&& is_first_family(
                adapters[s.compute_adapter as int].families@,
                Role::Compute,
                s.compute_family as int,
            )
        },
{
    if some_eligible(adapters, required, Role::Graphics) {
        let i = choose|i: int| eligible_at(adapters, required, Role::Graphics, i);
        assert(compatible_at(adapters, required, i));
        if some_eligible(adapters, required, Role::Compute) {
            lemma_chosen(adapters, required, Role::Graphics);
            lemma_chosen(adapters, required, Role::Compute);
            let g = best_adapter(adapters, required, Role::Graphics);
            let c = best_adapter(adapters, required, Role::Compute);
            assert(adapters[g].families@.len() == adapters[g].families.len());
            assert(adapters[c].families@.len() == adapters[c].families.len());
        }
    }
}

/// Where a role has an eligible adapter, the adapter and the family that
/// the selection names for it are the best adapter and its first suitable
/// family.
pub proof fn lemma_chosen(adapters: Seq<AdapterCandidate>, required: DeviceExtensions, role: Role)
    requires
        some_eligible(adapters, required, role),
    ensures
        is_best(adapters, required, role, best_adapter(adapters, required, role)),
        is_first_family(
            adapters[best_adapter(adapters, required, role)].families@,
            role,
            first_family(adapters[best_adapter(adapters, required, role)].families@, role),
        ),
{
    let b = lemma_best_exists(adapters, required, role, adapters.len() as int);
    assert(is_best(adapters, required, role, b));
    let families = adapters[best_adapter(adapters, required, role)].families@;
    let first = lemma_first_family_exists(families, role, families.len() as int);
}

/// Among the first `n` families one is the first to suit a role as soon as
/// one of them suits it.
pub proof fn lemma_first_family_exists(families: Seq<QueueFamily>, role: Role, n: int) -> (first:
    int)
    requires
        0 <= n <= families.len(),
        exists|f: int| 0 <= f < n && (#[trigger] families[f]).suits(role),
    ensures
        first < n,
        is_first_family(families, role, first),
    decreases n,
{
    let last = n - 1;
    if exists|f: int| 0 <= f < last && (#[trigger] families[f]).suits(role) {
        lemma_first_family_exists(families, role, last)
    } else {
        last
    }
}

/// Where, for each role, some adapter of the lowest rank among the
/// compatible ones has a suitable family, the selection succeeds and names
/// for each role a compatible adapter of that lowest rank.
pub proof fn lemma_selection_prefers_best_class(
    adapters: Seq<AdapterCandidate>,
    required: DeviceExtensions,
)
    requires
        adapters.len() <= usize::MAX,
        some_compatible(adapters, required),
        lowest_compatible_serves(adapters, required, Role::Graphics),
        lowest_compatible_serves(adapters, required, Role::Compute),
    ensures
        select_spec(adapters, required) matches Ok(s) && is_lowest_compatible(
            adapters,
            required,
            s.graphics_adapter as int,
        ) && is_lowest_compatible(adapters, required, s.compute_adapter as int),
{
    lemma_selection_is_best(adapters, required);
    let g = choose|i: int| #[trigger]
        eligible_at(adapters, required, Role::Graphics, i) && is_lowest_compatible(
            adapters,
            required,
            i,
        );
    let c = choose|i: int| #[trigger]
        eligible_at(adapters, required, Role::Compute, i) && is_lowest_compatible(
            adapters,
            required,
            i,
        );
    assert(eligible_at(adapters, required, Role::Graphics, g));
    assert(eligible_at(adapters, required, Role::Compute, c));
}

/// Where no adapter supports the required extensions, the selection fails
/// for want of a suitable adapter.
pub proof fn lemma_no_compatible_adapter(adapters: Seq<AdapterCandidate>, required: DeviceExtensions)
    requires
        forall|i: int| 0 <= i < adapters.len() ==> !(#[trigger] adapters[i]).supports(required),
    ensures
        select_spec(adapters, required) == Err::<Selection, SelectError>(
            SelectError::NoSuitableAdapter,
        ),
{
    assert forall|i: int| !compatible_at(adapters, required, i) by {
        if 0 <= i < adapters.len() {
            assert(!adapters[i].supports(required));
        }
    }
}

} // verus!
