//! Physical adapters as the engine sees them.

use crate::extensions::enabled_extensions;
use vstd::prelude::*;
use vulkano::device::DeviceExtensions;

verus! {

/// The class of a physical adapter.
#[derive(Clone, Copy, Debug, PartialEq, Eq, Structural)]
pub enum DeviceClass {
    /// A graphics processor of its own.
    Discrete,
    /// A graphics processor that shares the host's memory.
    Integrated,
    /// A graphics processor of a virtual machine.
    Virtual,
    /// An implementation in software, on the host's processor.
    Software,
    /// Anything else.
    Other,
}

impl DeviceClass {
    /// The rank of a class: lower is better. A discrete adapter ranks
    /// first and an implementation in software last.
    pub open spec fn rank(self) -> nat {
        match self {
            DeviceClass::Discrete => 0,
            DeviceClass::Integrated => 1,
            DeviceClass::Virtual => 2,
            DeviceClass::Other => 3,
            DeviceClass::Software => 4,
        }
    }

    /// Computes the rank of a class.
    pub fn score(self) -> (s: u8)
        ensures
            s == self.rank(),
    {
        match self {
            DeviceClass::Discrete => 0,
            DeviceClass::Integrated => 1,
            DeviceClass::Virtual => 2,
            DeviceClass::Other => 3,
            DeviceClass::Software => 4,
        }
    }
}

/// The smallest block of an image that a queue family transfers at once.
#[derive(Clone, Copy, Debug, PartialEq, Eq, Structural)]
pub struct TransferGranularity {
    pub width: u32,
    pub height: u32,
    pub depth: u32,
}

/// A group of command queues of one adapter that share their capabilities.
/// A family is known by its position among the families of its adapter.
#[derive(Clone, Copy, Debug, PartialEq, Eq, Structural)]
pub struct QueueFamily {
    pub queue_count: u32,
    pub graphics: bool,
    pub compute: bool,
    pub presentation: bool,
    pub transfer: bool,
    pub min_transfer_granularity: TransferGranularity,
}

/// A physical adapter that the engine may use.
#[derive(Debug)]
pub struct AdapterCandidate {
    pub name: String,
    pub class: DeviceClass,
    pub supported_extensions: DeviceExtensions,
    pub required_extensions: DeviceExtensions,
    pub families: Vec<QueueFamily>,
}

impl AdapterCandidate {
    /// Whether the adapter supports every extension in `required`.
    pub open spec fn supports(&self, required: DeviceExtensions) -> bool {
        enabled_extensions(required).subset_of(enabled_extensions(self.supported_extensions))
    }

    /// Decides whether the adapter supports every extension in `required`.
    pub fn is_compatible(&self, required: &DeviceExtensions) -> (compatible: bool)
        ensures
            compatible == self.supports(*required),
    {
        self.supported_extensions.is_superset_of(required)
    }
}

} // verus!
