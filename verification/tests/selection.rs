use quasar_engine::adapter::{AdapterCandidate, DeviceClass, QueueFamily, TransferGranularity};
use quasar_engine::selector::{
    any_compatible, find_family, select, select_for, Role, SelectError, Selection,
};
use vulkano::device::DeviceExtensions;

fn swapchain_only() -> DeviceExtensions {
    DeviceExtensions {
        khr_swapchain: true,
        ..DeviceExtensions::none()
    }
}

fn family(graphics: bool, compute: bool, presentation: bool) -> QueueFamily {
    QueueFamily {
        queue_count: 1,
        graphics,
        compute,
        presentation,
        transfer: true,
        min_transfer_granularity: TransferGranularity {
            width: 1,
            height: 1,
            depth: 1,
        },
    }
}

fn candidate(
    name: &str,
    class: DeviceClass,
    supported: DeviceExtensions,
    families: Vec<QueueFamily>,
) -> AdapterCandidate {
    AdapterCandidate {
        name: name.to_string(),
        class,
        supported_extensions: supported,
        required_extensions: DeviceExtensions::none(),
        families,
    }
}

#[test]
fn scores_rank_the_classes() {
    assert_eq!(DeviceClass::Discrete.score(), 0);
    assert_eq!(DeviceClass::Integrated.score(), 1);
    assert_eq!(DeviceClass::Virtual.score(), 2);
    assert_eq!(DeviceClass::Other.score(), 3);
    assert_eq!(DeviceClass::Software.score(), 4);
}

#[test]
fn discrete_adapter_is_preferred_to_integrated() {
    let adapters = vec![
        candidate(
            "integrated",
            DeviceClass::Integrated,
            swapchain_only(),
            vec![family(true, true, true)],
        ),
        candidate(
            "discrete",
            DeviceClass::Discrete,
            swapchain_only(),
            vec![family(true, true, true)],
        ),
    ];
    let selected = select(&adapters, &swapchain_only());
    assert_eq!(
        selected,
        Ok(Selection {
            graphics_adapter: 1,
            graphics_family: 0,
            compute_adapter: 1,
            compute_family: 0,
        })
    );
}

#[test]
fn lowest_rank_wins_for_each_role_among_many() {
    let adapters = vec![
        candidate(
            "software",
            DeviceClass::Software,
            swapchain_only(),
            vec![family(true, true, true)],
        ),
        candidate(
            "virtual",
            DeviceClass::Virtual,
            swapchain_only(),
            vec![family(true, true, true)],
        ),
        candidate(
            "other",
            DeviceClass::Other,
            swapchain_only(),
            vec![family(true, true, true)],
        ),
        candidate(
            "integrated",
            DeviceClass::Integrated,
            swapchain_only(),
            vec![family(true, true, true)],
        ),
    ];
    let selected = select(&adapters, &swapchain_only()).unwrap();
    assert_eq!(selected.graphics_adapter, 3);
    assert_eq!(selected.compute_adapter, 3);
}

#[test]
fn software_adapter_ranks_after_every_other_class() {
    let adapters = vec![
        candidate(
            "software",
            DeviceClass::Software,
            swapchain_only(),
            vec![family(true, true, true)],
        ),
        candidate(
            "other",
            DeviceClass::Other,
            swapchain_only(),
            vec![family(true, true, true)],
        ),
    ];
    let selected = select(&adapters, &swapchain_only()).unwrap();
    assert_eq!(selected.graphics_adapter, 1);
    assert_eq!(selected.compute_adapter, 1);
}

#[test]
fn roles_are_selected_independently() {
    let adapters = vec![
        candidate(
            "compute only",
            DeviceClass::Discrete,
            swapchain_only(),
            vec![family(false, true, false)],
        ),
        candidate(
            "graphics only",
            DeviceClass::Integrated,
            swapchain_only(),
            vec![family(false, false, false), family(true, false, true)],
        ),
    ];
    let selected = select(&adapters, &swapchain_only());
    assert_eq!(
        selected,
        Ok(Selection {
            graphics_adapter: 1,
            graphics_family: 1,
            compute_adapter: 0,
            compute_family: 0,
        })
    );
}

#[test]
fn first_adapter_of_equal_rank_is_selected() {
    let adapters = vec![
        candidate(
            "integrated",
            DeviceClass::Integrated,
            swapchain_only(),
            vec![family(true, true, true)],
        ),
        candidate(
            "first discrete",
            DeviceClass::Discrete,
            swapchain_only(),
            vec![family(true, true, true)],
        ),
        candidate(
            "second discrete",
            DeviceClass::Discrete,
            swapchain_only(),
            vec![family(true, true, true)],
        ),
    ];
    let selected = select(&adapters, &swapchain_only()).unwrap();
    assert_eq!(selected.graphics_adapter, 1);
    assert_eq!(selected.compute_adapter, 1);
}

#[test]
fn first_suitable_family_is_selected() {
    let adapters = vec![candidate(
        "discrete",
        DeviceClass::Discrete,
        swapchain_only(),
        vec![
            family(false, false, false),
            family(true, false, false),
            family(false, true, true),
            family(true, true, true),
            family(true, true, true),
        ],
    )];
    let selected = select(&adapters, &swapchain_only());
    assert_eq!(
        selected,
        Ok(Selection {
            graphics_adapter: 0,
            graphics_family: 3,
            compute_adapter: 0,
            compute_family: 2,
        })
    );
}

#[test]
fn graphics_family_must_present_to_the_surface() {
    let families = vec![family(true, true, false), family(true, false, true)];
    assert_eq!(find_family(&families, Role::Graphics), Some(1));
    assert_eq!(find_family(&families, Role::Compute), Some(0));
    assert!(!families[0].serves(Role::Graphics));
    assert!(families[0].serves(Role::Compute));
    assert!(families[1].serves(Role::Graphics));
    assert!(!families[1].serves(Role::Compute));
}

#[test]
fn no_family_is_found_where_none_suits() {
    let families = vec![family(true, false, false), family(false, false, true)];
    assert_eq!(find_family(&families, Role::Graphics), None);
    assert_eq!(find_family(&families, Role::Compute), None);
    assert_eq!(find_family(&Vec::new(), Role::Compute), None);
}

#[test]
fn adapter_without_required_extensions_is_discarded() {
    let adapters = vec![
        candidate(
            "discrete without swapchain",
            DeviceClass::Discrete,
            DeviceExtensions::none(),
            vec![family(true, true, true)],
        ),
        candidate(
            "software with swapchain",
            DeviceClass::Software,
            swapchain_only(),
            vec![family(true, true, true)],
        ),
    ];
    assert!(!adapters[0].is_compatible(&swapchain_only()));
    assert!(adapters[1].is_compatible(&swapchain_only()));
    let selected = select(&adapters, &swapchain_only()).unwrap();
    assert_eq!(selected.graphics_adapter, 1);
    assert_eq!(selected.compute_adapter, 1);
}

#[test]
fn compatibility_is_inclusion_of_extensions() {
    let both = DeviceExtensions {
        khr_swapchain: true,
        khr_maintenance1: true,
        ..DeviceExtensions::none()
    };
    let rich = candidate("rich", DeviceClass::Discrete, both, Vec::new());
    let poor = candidate("poor", DeviceClass::Discrete, swapchain_only(), Vec::new());
    assert!(rich.is_compatible(&swapchain_only()));
    assert!(rich.is_compatible(&both));
    assert!(rich.is_compatible(&DeviceExtensions::none()));
    assert!(poor.is_compatible(&swapchain_only()));
    assert!(!poor.is_compatible(&both));
}

#[test]
fn selection_fails_without_compatible_adapter() {
    let adapters = vec![
        candidate(
            "discrete",
            DeviceClass::Discrete,
            DeviceExtensions::none(),
            vec![family(true, true, true)],
        ),
        candidate(
            "integrated",
            DeviceClass::Integrated,
            DeviceExtensions {
                khr_maintenance1: true,
                ..DeviceExtensions::none()
            },
            vec![family(true, true, true)],
        ),
    ];
    assert!(!any_compatible(&adapters, &swapchain_only()));
    assert_eq!(
        select(&adapters, &swapchain_only()),
        Err(SelectError::NoSuitableAdapter)
    );
}

#[test]
fn selection_fails_on_an_empty_list() {
    let adapters: Vec<AdapterCandidate> = Vec::new();
    assert_eq!(
        select(&adapters, &swapchain_only()),
        Err(SelectError::NoSuitableAdapter)
    );
    assert_eq!(
        select(&adapters, &DeviceExtensions::none()),
        Err(SelectError::NoSuitableAdapter)
    );
}

#[test]
fn selection_fails_without_graphics_family() {
    let adapters = vec![
        candidate(
            "compute only",
            DeviceClass::Discrete,
            swapchain_only(),
            vec![family(false, true, false)],
        ),
        candidate(
            "cannot present",
            DeviceClass::Integrated,
            swapchain_only(),
            vec![family(true, true, false)],
        ),
    ];
    assert!(any_compatible(&adapters, &swapchain_only()));
    assert_eq!(
        select(&adapters, &swapchain_only()),
        Err(SelectError::NoSuitableQueueFamily(Role::Graphics))
    );
}

#[test]
fn selection_fails_without_compute_family() {
    let adapters = vec![candidate(
        "graphics only",
        DeviceClass::Discrete,
        swapchain_only(),
        vec![family(true, false, true)],
    )];
    assert_eq!(
        select(&adapters, &swapchain_only()),
        Err(SelectError::NoSuitableQueueFamily(Role::Compute))
    );
}

#[test]
fn family_on_an_incompatible_adapter_does_not_count() {
    let adapters = vec![
        candidate(
            "graphics only",
            DeviceClass::Integrated,
            swapchain_only(),
            vec![family(true, false, true)],
        ),
        candidate(
            "compute, without swapchain",
            DeviceClass::Discrete,
            DeviceExtensions::none(),
            vec![family(false, true, false)],
        ),
    ];
    assert_eq!(
        select_for(&adapters, &swapchain_only(), Role::Graphics),
        Some((0, 0))
    );
    assert_eq!(select_for(&adapters, &swapchain_only(), Role::Compute), None);
    assert_eq!(
        select(&adapters, &swapchain_only()),
        Err(SelectError::NoSuitableQueueFamily(Role::Compute))
    );
}

#[test]
fn selection_names_adapters_and_families_of_the_list() {
    let adapters = vec![
        candidate(
            "integrated",
            DeviceClass::Integrated,
            swapchain_only(),
            vec![family(false, true, false), family(true, false, true)],
        ),
    ];
    let selected = select(&adapters, &swapchain_only()).unwrap();
    assert!(selected.is_valid_for(&adapters));
    let stray = Selection {
        graphics_adapter: 0,
        graphics_family: 2,
        compute_adapter: 0,
        compute_family: 0,
    };
    assert!(!stray.is_valid_for(&adapters));
    let beyond = Selection {
        graphics_adapter: 0,
        graphics_family: 1,
        compute_adapter: 1,
        compute_family: 0,
    };
    assert!(!beyond.is_valid_for(&adapters));
}
