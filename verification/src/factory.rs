//! Planning the logical devices and queues that serve a selection.

use crate::adapter::{AdapterCandidate, QueueFamily};
use crate::extensions::enabled_extensions;
use crate::selector::Selection;
use vstd::prelude::*;
use vulkano::device::DeviceExtensions;

verus! {

/// The queues asked of one family of an adapter. All queues are asked for
/// with the same priority.
#[derive(Clone, Copy, Debug, PartialEq, Eq, Structural)]
pub struct FamilyRequest {
    /// The position of the family among the families of the adapter.
    pub family: usize,
    /// How many queues of the family are asked for.
    pub queues: usize,
}

/// One logical device to create.
#[derive(Debug)]
pub struct DeviceRequest {
    /// The position of the adapter in the list of candidates.
    pub adapter: usize,
    /// The extensions to enable on the device.
    pub enabled_extensions: DeviceExtensions,
    /// The families to take queues from, in the order in which the queues
    /// of the device are handed out.
    pub families: Vec<FamilyRequest>,
}

/// A logical device of a plan.
#[derive(Clone, Copy, Debug, PartialEq, Eq, Structural)]
pub struct LogicalDevice {
    /// The position of the device among the devices of the plan.
    pub index: usize,
    /// The position of its adapter in the list of candidates.
    pub adapter: usize,
}

/// A queue of a logical device.
#[derive(Clone, Copy, Debug, PartialEq, Eq, Structural)]
pub struct QueueHandle {
    /// The device that owns the queue.
    pub device: LogicalDevice,
    /// The position of the family among the families of the adapter.
    pub family: usize,
    /// The number of the queue within its family.
    pub index: usize,
    /// The position of the queue among all the queues of its device, in the
    /// order in which the device hands them out.
    pub position: usize,
}

/// The number of queues that a list of family requests asks for.
pub open spec fn requested_queues(families: Seq<FamilyRequest>) -> nat
    decreases families.len(),
{
    if families.len() == 0 {
        0
    } else {
        requested_queues(families.drop_last()) + families.last().queues as nat
    }
}

/// How many queues are asked of a family that serves both roles: two where
/// the family has them, else one.
pub open spec fn shared_queue_count(family: QueueFamily) -> usize {
    if family.queue_count >= 2 {
        2
    } else {
        1
    }
}

/// Whether `request` asks for a device on the adapter at position `adapter`
/// with the queues of `families`, enabling what the adapter requires
/// together with what the engine requires.
pub open spec fn is_request_for(
    request: DeviceRequest,
    adapters: Seq<AdapterCandidate>,
    required: DeviceExtensions,
    adapter: int,
    families: Seq<FamilyRequest>,
) -> bool {
    &&& request.adapter == adapter
    &&& request.families@ =~= families
    &&& enabled_extensions(request.enabled_extensions) == enabled_extensions(
        adapters[adapter].required_extensions,
    ).union(enabled_extensions(required))
}

/// What to create for a selection: one or two logical devices, and where
/// among their queues the graphics queue and the compute queue are found.
#[derive(Debug)]
pub struct DevicePlan {
    devices: Vec<DeviceRequest>,
    graphics: QueueHandle,
    compute: QueueHandle,
}

/// Whether `request` asks for one or two queues in all, for at least one of
/// each family that it names, and names no family twice.
pub open spec fn is_sound_request(request: DeviceRequest) -> bool {
    &&& 1 <= requested_queues(request.families@) <= 2
    &&& forall|e: int|
        0 <= e < request.families@.len() ==> (#[trigger] request.families@[e]).queues >= 1
    &&& forall|e: int, g: int|
        0 <= e < g < request.families@.len() ==> (#[trigger] request.families@[e]).family != (
        #[trigger] request.families@[g]).family
}

/// Whether `queue` is one of the queues that `devices` ask for.
pub open spec fn is_planned_queue(devices: Seq<DeviceRequest>, queue: QueueHandle) -> bool {
    &&& queue.device.index < devices.len()
    &&& queue.device.adapter == devices[queue.device.index as int].adapter
    &&& queue.position < requested_queues(devices[queue.device.index as int].families@)
}

impl DevicePlan {
    /// The devices to create, in order.
    pub closed spec fn device_requests(&self) -> Seq<DeviceRequest> {
        self.devices@
    }

    /// The queue that serves graphics.
    pub closed spec fn graphics_slot(&self) -> QueueHandle {
        self.graphics
    }

    /// The queue that serves compute.
    pub closed spec fn compute_slot(&self) -> QueueHandle {
        self.compute
    }

    /// A plan has one device, or two on different adapters. Each of its
    /// requests is sound, and both of its queues are among those asked for.
    #[verifier::type_invariant]
    pub open spec fn wf(&self) -> bool {
        &&& 1 <= self.device_requests().len() <= 2
        &&& self.device_requests().len() == 2 ==> self.device_requests()[0].adapter
            != self.device_requests()[1].adapter
        &&& forall|d: int|
            0 <= d < self.device_requests().len() ==> is_sound_request(
                #[trigger] self.device_requests()[d],
            )
        &&& is_planned_queue(self.device_requests(), self.graphics_slot())
        &&& is_planned_queue(self.device_requests(), self.compute_slot())
    }

    /// Whether the plan is one device with one family that serves both
    /// roles: with two queues where the family has them, else with one
    /// queue that both roles share.
    pub open spec fn is_shared_family(
        &self,
        adapters: Seq<AdapterCandidate>,
        required: DeviceExtensions,
        selection: Selection,
    ) -> bool {
        let adapter = selection.graphics_adapter;
        let family = selection.graphics_family;
        let queues = shared_queue_count(adapters[adapter as int].families@[family as int]);
        let device = LogicalDevice { index: 0, adapter };
        &&& self.device_requests().len() == 1
        &&& is_request_for(
            self.device_requests()[0],
            adapters,
            required,
            adapter as int,
            seq![FamilyRequest { family, queues }],
        )
        &&& self.graphics_slot() == (QueueHandle { device, family, index: 0, position: 0 })
        &&& self.compute_slot() == if queues == 2 {
            QueueHandle { device, family, index: 1, position: 1 }
        } else {
            QueueHandle { device, family, index: 0, position: 0 }
        }
    }

    /// Whether the plan is one device with one queue of each of the two
    /// families.
    pub open spec fn is_shared_adapter(
        &self,
        adapters: Seq<AdapterCandidate>,
        required: DeviceExtensions,
        selection: Selection,
    ) -> bool {
        let adapter = selection.graphics_adapter;
        let device = LogicalDevice { index: 0, adapter };
        &&& self.device_requests().len() == 1
        &&& is_request_for(
            self.device_requests()[0],
            adapters,
            required,
            adapter as int,
            seq![
                FamilyRequest { family: selection.graphics_family, queues: 1 },
                FamilyRequest { family: selection.compute_family, queues: 1 },
            ],
        )
        &&& self.graphics_slot() == (QueueHandle {
            device,
            family: selection.graphics_family,
            index: 0,
            position: 0,
        })
        &&& self.compute_slot() == (QueueHandle {
            device,
            family: selection.compute_family,
            index: 0,
            position: 1,
        })
    }

    /// Whether the plan is two devices, the first for graphics and the
    /// second for compute, with one queue each.
    pub open spec fn is_separate(
        &self,
        adapters: Seq<AdapterCandidate>,
        required: DeviceExtensions,
        selection: Selection,
    ) -> bool {
        &&& self.device_requests().len() == 2
        &&& is_request_for(
            self.device_requests()[0],
            adapters,
            required,
            selection.graphics_adapter as int,
            seq![FamilyRequest { family: selection.graphics_family, queues: 1 }],
        )
        &&& is_request_for(
            self.device_requests()[1],
            adapters,
            required,
            selection.compute_adapter as int,
            seq![FamilyRequest { family: selection.compute_family, queues: 1 }],
        )
        &&& self.graphics_slot() == (QueueHandle {
            device: LogicalDevice { index: 0, adapter: selection.graphics_adapter },
            family: selection.graphics_family,
            index: 0,
            position: 0,
        })
        &&& self.compute_slot() == (QueueHandle {
            device: LogicalDevice { index: 1, adapter: selection.compute_adapter },
            family: selection.compute_family,
            index: 0,
            position: 0,
        })
    }

    /// Plans the devices for a selection, at the least cost: one device
    /// where both roles are served by one adapter, two devices otherwise.
    pub fn new(
        adapters: &Vec<AdapterCandidate>,
        required: &DeviceExtensions,
        selection: &Selection,
    ) -> (plan: DevicePlan)
        requires
            selection.fits(adapters@),
        ensures
            plan.wf(),
            selection.graphics_adapter == selection.compute_adapter && selection.graphics_family
                == selection.compute_family ==> plan.is_shared_family(
                adapters@,
                *required,
                *selection,
            ),
            selection.graphics_adapter == selection.compute_adapter && selection.graphics_family
                != selection.compute_family ==> plan.is_shared_adapter(
                adapters@,
                *required,
                *selection,
            ),
            selection.graphics_adapter != selection.compute_adapter ==> plan.is_separate(
                adapters@,
                *required,
                *selection,
            ),
            selection.graphics_adapter == selection.compute_adapter
                ==> plan.device_requests().len() == 1,
            selection.graphics_adapter == selection.compute_adapter && selection.graphics_family
                != selection.compute_family ==> requested_queues(
                plan.device_requests()[0].families@,
            ) == 2,
            selection.graphics_adapter != selection.compute_adapter
                ==> plan.device_requests().len() == 2,
    {
        let graphics_adapter = &adapters[selection.graphics_adapter];
        let graphics_device = LogicalDevice { index: 0, adapter: selection.graphics_adapter };
        let graphics = QueueHandle {
            device: graphics_device,
            family: selection.graphics_family,
            index: 0,
            position: 0,
        };
        let mut devices: Vec<DeviceRequest> = Vec::new();
        if selection.graphics_adapter == selection.compute_adapter {
            let mut families: Vec<FamilyRequest> = Vec::new();
            let compute;
            if selection.graphics_family == selection.compute_family {
                let shared = &graphics_adapter.families[selection.graphics_family];
                let queues: usize = if shared.queue_count >= 2 {
                    2
                } else {
                    1
                };
                families.push(FamilyRequest { family: selection.graphics_family, queues });
                compute = if queues == 2 {
                    QueueHandle {
                        device: graphics_device,
                        family: selection.graphics_family,
                        index: 1,
                        position: 1,
                    }
                } else {
                    graphics
                };
                proof {
                    lemma_requested_one(families@);
                }
            } else {
                families.push(FamilyRequest { family: selection.graphics_family, queues: 1 });
                families.push(FamilyRequest { family: selection.compute_family, queues: 1 });
                compute = QueueHandle {
                    device: graphics_device,
                    family: selection.compute_family,
                    index: 0,
                    position: 1,
                };
                proof {
                    lemma_requested_two(families@);
                }
            }
            devices.push(
                DeviceRequest {
                    adapter: selection.graphics_adapter,
                    enabled_extensions: graphics_adapter.required_extensions.union(required),
                    families,
                },
            );
            DevicePlan { devices, graphics, compute }
        } else {
            let compute_adapter = &adapters[selection.compute_adapter];
            let mut graphics_families: Vec<FamilyRequest> = Vec::new();
            graphics_families.push(
                FamilyRequest { family: selection.graphics_family, queues: 1 },
            );
            let mut compute_families: Vec<FamilyRequest> = Vec::new();
            compute_families.push(FamilyRequest { family: selection.compute_family, queues: 1 });
            proof {
                lemma_requested_one(graphics_families@);
                lemma_requested_one(compute_families@);
            }
            devices.push(
                DeviceRequest {
                    adapter: selection.graphics_adapter,
                    enabled_extensions: graphics_adapter.required_extensions.union(required),
                    families: graphics_families,
                },
            );
            devices.push(
                DeviceRequest {
                    adapter: selection.compute_adapter,
                    enabled_extensions: compute_adapter.required_extensions.union(required),
                    families: compute_families,
                },
            );
            let compute = QueueHandle {
                device: LogicalDevice { index: 1, adapter: selection.compute_adapter },
                family: selection.compute_family,
                index: 0,
                position: 0,
            };
            DevicePlan { devices, graphics, compute }
        }
    }

    /// Counts the queues that the plan asks of the device at position
    /// `device`.
    pub(crate) fn queues_of(&self, device: usize) -> (total: usize)
        requires
            device < self.device_requests().len(),
        ensures
            total == requested_queues(self.device_requests()[device as int].families@),
    {
        proof {
            use_type_invariant(self);
        }
        let families = &self.devices[device].families;
        let mut total: usize = 0;
        let mut k: usize = 0;
        while k < families.len()
            invariant
                k <= families.len(),
                total == requested_queues(families@.take(k as int)),
                requested_queues(families@) <= 2,
            decreases families.len() - k,
        {
            proof {
                lemma_requested_prefix(families@, k as int + 1);
                assert(families@.take(k as int + 1).drop_last() =~= families@.take(k as int));
            }
            total += families[k].queues;
            k += 1;
        }
        proof {
            assert(families@.take(k as int) =~= families@);
        }
        total
    }

    /// The devices to create, in the order in which the plan numbers them.
    pub fn devices(&self) -> (devices: &Vec<DeviceRequest>)
        ensures
            devices@ == self.device_requests(),
    {
        &self.devices
    }

    /// The queue that serves graphics.
    pub fn graphics(&self) -> (queue: QueueHandle)
        ensures
            queue == self.graphics_slot(),
    {
        self.graphics
    }

    /// The queue that serves compute.
    pub fn compute(&self) -> (queue: QueueHandle)
        ensures
            queue == self.compute_slot(),
    {
        self.compute
    }
}

/// A single family request asks for as many queues as it says.
pub proof fn lemma_requested_one(families: Seq<FamilyRequest>)
    requires
        families.len() == 1,
    ensures
        requested_queues(families) == families[0].queues,
{
    assert(requested_queues(families.drop_last()) == 0);
}

/// The first `n` requests of a list ask for no more queues than the whole
/// list.
pub proof fn lemma_requested_prefix(families: Seq<FamilyRequest>, n: int)
    requires
        0 <= n <= families.len(),
    ensures
        requested_queues(families.take(n)) <= requested_queues(families),
    decreases families.len(),
{
    if n == families.len() {
        assert(families.take(n) =~= families);
    } else {
        lemma_requested_prefix(families.drop_last(), n);
        assert(families.drop_last().take(n) =~= families.take(n));
    }
}

/// Two family requests ask for the sum of their queues.
pub proof fn lemma_requested_two(families: Seq<FamilyRequest>)
    requires
        families.len() == 2,
    ensures
        requested_queues(families) == families[0].queues + families[1].queues,
{
    lemma_requested_one(families.drop_last());
}

} // verus!
