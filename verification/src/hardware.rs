//! The logical devices and queues of a running engine.

use crate::factory::{requested_queues, DevicePlan, DeviceRequest, LogicalDevice, QueueHandle};
use vstd::prelude::*;

verus! {

/// What the driver answered to the request for one logical device.
#[derive(Clone, Copy, Debug, PartialEq, Eq, Structural)]
pub enum DeviceOutcome {
    /// The device exists and has handed out this many queues.
    Created { queues: usize },
    /// The driver rejected the request.
    Rejected,
}

/// Why the hardware could not be set up.
#[derive(Clone, Copy, Debug, PartialEq, Eq, Structural)]
pub enum HardwareError {
    /// The device at this position of the plan was not created with all the
    /// queues asked of it.
    DeviceCreationFailed { device: usize },
}

/// Whether the device at position `d` was created with at least the queues
/// that `devices` ask of it.
pub open spec fn is_created(devices: Seq<DeviceRequest>, created: Seq<DeviceOutcome>, d: int) -> bool {
    &&& 0 <= d < devices.len()
    &&& d < created.len()
    &&& created[d] matches DeviceOutcome::Created { queues }
    &&& queues >= requested_queues(devices[d].families@)
}

/// The queues that the engine submits work to.
#[derive(Clone, Copy, Debug, PartialEq, Eq, Structural)]
pub struct Hardware {
    graphics_queue: QueueHandle,
    compute_queue: QueueHandle,
}

impl Hardware {
    /// The queue that graphics work is submitted to.
    pub closed spec fn graphics(&self) -> QueueHandle {
        self.graphics_queue
    }

    /// The queue that compute work is submitted to.
    pub closed spec fn compute(&self) -> QueueHandle {
        self.compute_queue
    }

    /// Whether both roles are served by one queue.
    pub open spec fn shares_queue(&self) -> bool {
        self.graphics() == self.compute()
    }

    /// Whether both roles are served by one logical device.
    pub open spec fn shares_device(&self) -> bool {
        self.graphics().device == self.compute().device
    }

    /// Takes the queues of a plan once the driver has answered each of its
    /// device requests, in order. Fails at the first device that was not
    /// created with all the queues asked of it.
    pub fn new(plan: &DevicePlan, created: &Vec<DeviceOutcome>) -> (hardware: Result<
        Hardware,
        HardwareError,
    >)
        ensures
            match hardware {
                Ok(h) => {
                    &&& forall|d: int|
                        0 <= d < plan.device_requests().len() ==> is_created(
                            plan.device_requests(),
                            created@,
                            d,
                        )
                    &&& h.graphics() == plan.graphics_slot()
                    &&& h.compute() == plan.compute_slot()
                },
                Err(HardwareError::DeviceCreationFailed { device }) => {
                    &&& device < plan.device_requests().len()
                    &&& !is_created(plan.device_requests(), created@, device as int)
                    &&& forall|d: int|
                        0 <= d < device ==> is_created(plan.device_requests(), created@, d)
                },
            },
    {
        let devices = plan.devices();
        let mut d: usize = 0;
        while d < devices.len()
            invariant
                d <= devices.len(),
                devices@ == plan.device_requests(),
                forall|e: int| 0 <= e < d ==> is_created(plan.device_requests(), created@, e),
            decreases devices.len() - d,
        {
            let asked = plan.queues_of(d);
            let fulfilled = d < created.len() && match created[d] {
                DeviceOutcome::Created { queues } => queues >= asked,
                DeviceOutcome::Rejected => false,
            };
            if !fulfilled {
                return Err(HardwareError::DeviceCreationFailed { device: d });
            }
            d += 1;
        }
        Ok(Hardware { graphics_queue: plan.graphics(), compute_queue: plan.compute() })
    }

    /// The queue that graphics work is submitted to.
    pub fn graphics_queue(&self) -> (queue: &QueueHandle)
        ensures
            *queue == self.graphics(),
    {
        &self.graphics_queue
    }

    /// The device that owns the graphics queue.
    pub fn graphics_device(&self) -> (device: &LogicalDevice)
        ensures
            *device == self.graphics().device,
    {
        &self.graphics_queue.device
    }

    /// The queue that compute work is submitted to.
    pub fn compute_queue(&self) -> (queue: &QueueHandle)
        ensures
            *queue == self.compute(),
    {
        &self.compute_queue
    }

    /// The device that owns the compute queue.
    pub fn compute_device(&self) -> (device: &LogicalDevice)
        ensures
            *device == self.compute().device,
    {
        &self.compute_queue.device
    }
}

} // verus!
