use quasar_engine::adapter::{AdapterCandidate, DeviceClass, QueueFamily, TransferGranularity};
use quasar_engine::factory::{DevicePlan, FamilyRequest, LogicalDevice, QueueHandle};
use quasar_engine::hardware::{DeviceOutcome, Hardware, HardwareError};
use quasar_engine::selector::{select, Selection};
use vulkano::device::DeviceExtensions;

fn engine_extensions() -> DeviceExtensions {
    DeviceExtensions {
        khr_swapchain: true,
        ..DeviceExtensions::none()
    }
}

fn queues(queue_count: u32, graphics: bool, compute: bool) -> QueueFamily {
    QueueFamily {
        queue_count,
        graphics,
        compute,
        presentation: graphics,
        transfer: false,
        min_transfer_granularity: TransferGranularity {
            width: 1,
            height: 1,
            depth: 1,
        },
    }
}

fn adapter(class: DeviceClass, families: Vec<QueueFamily>) -> AdapterCandidate {
    AdapterCandidate {
        name: "adapter".to_string(),
        class,
        supported_extensions: DeviceExtensions {
            khr_swapchain: true,
            khr_portability_subset: true,
            ..DeviceExtensions::none()
        },
        required_extensions: DeviceExtensions::none(),
        families,
    }
}

fn portable_adapter(class: DeviceClass, families: Vec<QueueFamily>) -> AdapterCandidate {
    AdapterCandidate {
        name: "portable adapter".to_string(),
        class,
        supported_extensions: DeviceExtensions {
            khr_swapchain: true,
            khr_portability_subset: true,
            ..DeviceExtensions::none()
        },
        required_extensions: DeviceExtensions {
            khr_portability_subset: true,
            ..DeviceExtensions::none()
        },
        families,
    }
}

#[test]
fn shared_family_with_two_queues_gives_one_device_and_two_queues() {
    let adapters = vec![adapter(DeviceClass::Discrete, vec![queues(4, true, true)])];
    let selection = select(&adapters, &engine_extensions()).unwrap();
    let plan = DevicePlan::new(&adapters, &engine_extensions(), &selection);
    assert_eq!(plan.devices().len(), 1);
    assert_eq!(plan.devices()[0].adapter, 0);
    assert_eq!(
        plan.devices()[0].families,
        vec![FamilyRequest {
            family: 0,
            queues: 2
        }]
    );
    let device = LogicalDevice {
        index: 0,
        adapter: 0,
    };
    assert_eq!(
        plan.graphics(),
        QueueHandle {
            device,
            family: 0,
            index: 0,
            position: 0
        }
    );
    assert_eq!(
        plan.compute(),
        QueueHandle {
            device,
            family: 0,
            index: 1,
            position: 1
        }
    );
}

#[test]
fn shared_family_with_two_queues_exactly_asks_for_both() {
    let adapters = vec![adapter(DeviceClass::Discrete, vec![queues(2, true, true)])];
    let selection = select(&adapters, &engine_extensions()).unwrap();
    let plan = DevicePlan::new(&adapters, &engine_extensions(), &selection);
    assert_eq!(plan.devices()[0].families[0].queues, 2);
    assert_eq!(plan.compute().index, 1);
}

#[test]
fn shared_family_with_one_queue_serves_both_roles_with_it() {
    let adapters = vec![adapter(DeviceClass::Discrete, vec![queues(1, true, true)])];
    let selection = select(&adapters, &engine_extensions()).unwrap();
    let plan = DevicePlan::new(&adapters, &engine_extensions(), &selection);
    assert_eq!(plan.devices().len(), 1);
    assert_eq!(
        plan.devices()[0].families,
        vec![FamilyRequest {
            family: 0,
            queues: 1
        }]
    );
    assert_eq!(plan.graphics(), plan.compute());
    assert_eq!(plan.compute().position, 0);
}

#[test]
fn different_families_of_one_adapter_give_one_device_with_two_queues() {
    let adapters = vec![adapter(
        DeviceClass::Discrete,
        vec![
            queues(1, false, false),
            queues(8, false, true),
            queues(8, true, false),
        ],
    )];
    let selection = select(&adapters, &engine_extensions()).unwrap();
    assert_eq!(
        selection,
        Selection {
            graphics_adapter: 0,
            graphics_family: 2,
            compute_adapter: 0,
            compute_family: 1
        }
    );
    let plan = DevicePlan::new(&adapters, &engine_extensions(), &selection);
    assert_eq!(plan.devices().len(), 1);
    assert_eq!(
        plan.devices()[0].families,
        vec![
            FamilyRequest {
                family: 2,
                queues: 1
            },
            FamilyRequest {
                family: 1,
                queues: 1
            }
        ]
    );
    let device = LogicalDevice {
        index: 0,
        adapter: 0,
    };
    assert_eq!(
        plan.graphics(),
        QueueHandle {
            device,
            family: 2,
            index: 0,
            position: 0
        }
    );
    assert_eq!(
        plan.compute(),
        QueueHandle {
            device,
            family: 1,
            index: 0,
            position: 1
        }
    );
}

#[test]
fn different_adapters_give_two_devices() {
    let adapters = vec![
        adapter(DeviceClass::Integrated, vec![queues(2, true, false)]),
        adapter(
            DeviceClass::Discrete,
            vec![queues(1, false, false), queues(2, false, true)],
        ),
    ];
    let selection = select(&adapters, &engine_extensions()).unwrap();
    let plan = DevicePlan::new(&adapters, &engine_extensions(), &selection);
    assert_eq!(plan.devices().len(), 2);
    assert_eq!(plan.devices()[0].adapter, 0);
    assert_eq!(
        plan.devices()[0].families,
        vec![FamilyRequest {
            family: 0,
            queues: 1
        }]
    );
    assert_eq!(plan.devices()[1].adapter, 1);
    assert_eq!(
        plan.devices()[1].families,
        vec![FamilyRequest {
            family: 1,
            queues: 1
        }]
    );
    assert_eq!(
        plan.graphics(),
        QueueHandle {
            device: LogicalDevice {
                index: 0,
                adapter: 0
            },
            family: 0,
            index: 0,
            position: 0
        }
    );
    assert_eq!(
        plan.compute(),
        QueueHandle {
            device: LogicalDevice {
                index: 1,
                adapter: 1
            },
            family: 1,
            index: 0,
            position: 0
        }
    );
}

#[test]
fn enabled_extensions_join_those_of_adapter_and_engine() {
    let adapters = vec![
        portable_adapter(DeviceClass::Integrated, vec![queues(1, true, false)]),
        adapter(DeviceClass::Discrete, vec![queues(1, false, true)]),
    ];
    let selection = select(&adapters, &engine_extensions()).unwrap();
    let plan = DevicePlan::new(&adapters, &engine_extensions(), &selection);
    assert_eq!(
        plan.devices()[0].enabled_extensions,
        DeviceExtensions {
            khr_swapchain: true,
            khr_portability_subset: true,
            ..DeviceExtensions::none()
        }
    );
    assert_eq!(plan.devices()[1].enabled_extensions, engine_extensions());
}

#[test]
fn enabled_extensions_of_a_shared_device_join_too() {
    let adapters = vec![portable_adapter(
        DeviceClass::Discrete,
        vec![queues(2, true, true)],
    )];
    let selection = select(&adapters, &engine_extensions()).unwrap();
    let plan = DevicePlan::new(&adapters, &engine_extensions(), &selection);
    let enabled = plan.devices()[0].enabled_extensions;
    assert!(enabled.khr_swapchain);
    assert!(enabled.khr_portability_subset);
    assert_ne!(enabled, engine_extensions());
    assert_ne!(enabled, adapters[0].required_extensions);
}

#[test]
fn hardware_takes_the_queues_of_the_plan() {
    let adapters = vec![adapter(DeviceClass::Discrete, vec![queues(2, true, true)])];
    let selection = select(&adapters, &engine_extensions()).unwrap();
    let plan = DevicePlan::new(&adapters, &engine_extensions(), &selection);
    let hardware = Hardware::new(&plan, &vec![DeviceOutcome::Created { queues: 2 }]).unwrap();
    assert_eq!(*hardware.graphics_queue(), plan.graphics());
    assert_eq!(*hardware.compute_queue(), plan.compute());
    assert_eq!(
        *hardware.graphics_device(),
        LogicalDevice {
            index: 0,
            adapter: 0
        }
    );
    assert_eq!(hardware.graphics_device(), hardware.compute_device());
    assert_ne!(hardware.graphics_queue(), hardware.compute_queue());
}

#[test]
fn hardware_on_two_adapters_has_two_devices() {
    let adapters = vec![
        adapter(DeviceClass::Integrated, vec![queues(1, true, false)]),
        adapter(DeviceClass::Discrete, vec![queues(1, false, true)]),
    ];
    let selection = select(&adapters, &engine_extensions()).unwrap();
    let plan = DevicePlan::new(&adapters, &engine_extensions(), &selection);
    let created = vec![
        DeviceOutcome::Created { queues: 1 },
        DeviceOutcome::Created { queues: 1 },
    ];
    let hardware = Hardware::new(&plan, &created).unwrap();
    assert_eq!(
        *hardware.graphics_device(),
        LogicalDevice {
            index: 0,
            adapter: 0
        }
    );
    assert_eq!(
        *hardware.compute_device(),
        LogicalDevice {
            index: 1,
            adapter: 1
        }
    );
}

#[test]
fn hardware_with_one_queue_shares_it() {
    let adapters = vec![adapter(DeviceClass::Discrete, vec![queues(1, true, true)])];
    let selection = select(&adapters, &engine_extensions()).unwrap();
    let plan = DevicePlan::new(&adapters, &engine_extensions(), &selection);
    let hardware = Hardware::new(&plan, &vec![DeviceOutcome::Created { queues: 1 }]).unwrap();
    assert_eq!(hardware.graphics_queue(), hardware.compute_queue());
}

#[test]
fn rejected_device_fails_creation() {
    let adapters = vec![adapter(DeviceClass::Discrete, vec![queues(2, true, true)])];
    let selection = select(&adapters, &engine_extensions()).unwrap();
    let plan = DevicePlan::new(&adapters, &engine_extensions(), &selection);
    assert_eq!(
        Hardware::new(&plan, &vec![DeviceOutcome::Rejected]),
        Err(HardwareError::DeviceCreationFailed { device: 0 })
    );
}

#[test]
fn device_with_too_few_queues_fails_creation() {
    let adapters = vec![adapter(DeviceClass::Discrete, vec![queues(2, true, true)])];
    let selection = select(&adapters, &engine_extensions()).unwrap();
    let plan = DevicePlan::new(&adapters, &engine_extensions(), &selection);
    assert_eq!(
        Hardware::new(&plan, &vec![DeviceOutcome::Created { queues: 1 }]),
        Err(HardwareError::DeviceCreationFailed { device: 0 })
    );
}

#[test]
fn missing_answer_fails_creation() {
    let adapters = vec![
        adapter(DeviceClass::Integrated, vec![queues(1, true, false)]),
        adapter(DeviceClass::Discrete, vec![queues(1, false, true)]),
    ];
    let selection = select(&adapters, &engine_extensions()).unwrap();
    let plan = DevicePlan::new(&adapters, &engine_extensions(), &selection);
    assert_eq!(
        Hardware::new(&plan, &Vec::new()),
        Err(HardwareError::DeviceCreationFailed { device: 0 })
    );
    assert_eq!(
        Hardware::new(&plan, &vec![DeviceOutcome::Created { queues: 1 }]),
        Err(HardwareError::DeviceCreationFailed { device: 1 })
    );
}

#[test]
fn first_failed_device_is_reported() {
    let adapters = vec![
        adapter(DeviceClass::Integrated, vec![queues(1, true, false)]),
        adapter(DeviceClass::Discrete, vec![queues(1, false, true)]),
    ];
    let selection = select(&adapters, &engine_extensions()).unwrap();
    let plan = DevicePlan::new(&adapters, &engine_extensions(), &selection);
    assert_eq!(
        Hardware::new(
            &plan,
            &vec![DeviceOutcome::Rejected, DeviceOutcome::Rejected]
        ),
        Err(HardwareError::DeviceCreationFailed { device: 0 })
    );
    assert_eq!(
        Hardware::new(
            &plan,
            &vec![
                DeviceOutcome::Created { queues: 1 },
                DeviceOutcome::Rejected
            ]
        ),
        Err(HardwareError::DeviceCreationFailed { device: 1 })
    );
}
