//! Tests for capability inference over declared parameter lists.

use bevy_sorting::AccessSet;
use bevy_sorting::Direction;
use bevy_sorting::InferFlow;
use bevy_sorting::InferFlowEach;
use bevy_sorting::IntoSystemRW;
use bevy_sorting::ParamShape;
use bevy_sorting::QueryField;
use bevy_sorting::QueryFilter;
use bevy_sorting::SlotId;
use bevy_sorting::System;
use bevy_sorting::SystemConfig;

fn reads_set(slot: SlotId) -> AccessSet {
    AccessSet {
        direction: Direction::Read,
        slot,
    }
}

fn writes_set(slot: SlotId) -> AccessSet {
    AccessSet {
        direction: Direction::Write,
        slot,
    }
}

fn same_memberships(a: &SystemConfig, b: &SystemConfig) -> bool {
    a.membership_count() == b.membership_count()
        && a.membership_list().iter().all(|s| b.is_member(s))
}

#[test]
fn simple_event_sorting() {
    let some_event = SlotId { key: 1 };
    let some_reader_only = System {
        params: vec![ParamShape::EventReader(some_event)],
    }
    .in_auto_sets();
    let some_writer_only = System {
        params: vec![ParamShape::EventWriter(some_event)],
    }
    .in_auto_sets();

    assert!(some_reader_only.is_member(&reads_set(some_event)));
    assert!(!some_writer_only.is_member(&reads_set(some_event)));
    assert!(some_writer_only.is_member(&writes_set(some_event)));
    assert!(!some_reader_only.is_member(&writes_set(some_event)));
}

#[test]
fn double_event_sorting() {
    let some_event = SlotId { key: 1 };
    let other_event = SlotId { key: 2 };
    let some_reader_only = System {
        params: vec![ParamShape::EventReader(some_event)],
    }
    .in_auto_sets();
    let two_writers = System {
        params: vec![
            ParamShape::EventWriter(other_event),
            ParamShape::EventWriter(some_event),
        ],
    }
    .in_auto_sets();
    let two_readers = System {
        params: vec![
            ParamShape::EventReader(some_event),
            ParamShape::EventReader(other_event),
        ],
    }
    .in_auto_sets();
    let some_writer_only = System {
        params: vec![ParamShape::EventWriter(some_event)],
    }
    .in_auto_sets();

    assert!(
        some_reader_only.is_member(&reads_set(some_event))
            && two_readers.is_member(&reads_set(some_event))
            && !two_writers.is_member(&reads_set(some_event))
            && !some_writer_only.is_member(&reads_set(some_event))
    );
    assert!(
        some_writer_only.is_member(&writes_set(some_event))
            && two_writers.is_member(&writes_set(some_event))
            && !two_readers.is_member(&writes_set(some_event))
            && !some_reader_only.is_member(&writes_set(some_event))
    );
    assert!(
        two_readers.is_member(&reads_set(other_event))
            && !some_reader_only.is_member(&reads_set(other_event))
            && !two_writers.is_member(&reads_set(other_event))
            && !some_writer_only.is_member(&reads_set(other_event))
    );
    assert!(
        two_writers.is_member(&writes_set(other_event))
            && !two_readers.is_member(&writes_set(other_event))
            && !some_reader_only.is_member(&writes_set(other_event))
            && !some_writer_only.is_member(&writes_set(other_event))
    );
}

#[test]
fn miexed_event_sorting() {
    let some_event = SlotId { key: 1 };
    let other_event = SlotId { key: 2 };
    let some_reader_only = System {
        params: vec![ParamShape::EventReader(some_event)],
    }
    .in_auto_sets();
    let other_writer_only = System {
        params: vec![ParamShape::EventWriter(other_event)],
    }
    .in_auto_sets();
    let mixed_events = System {
        params: vec![
            ParamShape::EventWriter(some_event),
            ParamShape::EventReader(other_event),
        ],
    }
    .in_auto_sets();

    assert!(
        some_reader_only.is_member(&reads_set(some_event))
            && !other_writer_only.is_member(&reads_set(some_event))
            && !mixed_events.is_member(&reads_set(some_event))
    );
    assert!(
        mixed_events.is_member(&writes_set(some_event))
            && !some_reader_only.is_member(&writes_set(some_event))
            && !other_writer_only.is_member(&writes_set(some_event))
    );
    assert!(
        mixed_events.is_member(&reads_set(other_event))
            && !some_reader_only.is_member(&reads_set(other_event))
            && !other_writer_only.is_member(&reads_set(other_event))
    );
    assert!(
        other_writer_only.is_member(&writes_set(other_event))
            && !mixed_events.is_member(&writes_set(other_event))
            && !some_reader_only.is_member(&writes_set(other_event))
    );
}

#[test]
fn commands_do_not_create_autoset() {
    let some_event = SlotId { key: 1 };
    let commands_only = System {
        params: vec![ParamShape::Infra],
    }
    .in_auto_sets();
    let commands_and_reader = System {
        params: vec![ParamShape::Infra, ParamShape::EventReader(some_event)],
    }
    .in_auto_sets();

    assert_eq!(
        commands_only.membership_count() + commands_and_reader.membership_count(),
        1
    );
}

#[test]
fn simple_resources_sorting() {
    let something = SlotId { key: 1 };
    let resource_only = System {
        params: vec![ParamShape::Res(something)],
    }
    .in_auto_sets();
    let resource_mut_only = System {
        params: vec![ParamShape::ResMut(something)],
    }
    .in_auto_sets();

    assert!(
        resource_only.is_member(&reads_set(something))
            && !resource_mut_only.is_member(&reads_set(something))
    );
    assert!(
        resource_mut_only.is_member(&writes_set(something))
            && !resource_only.is_member(&writes_set(something))
    );
}

#[test]
fn mixed_resource_sorting() {
    let something = SlotId { key: 1 };
    let something_else = SlotId { key: 2 };
    let resource_mixed = System {
        params: vec![
            ParamShape::Res(something),
            ParamShape::ResMut(something_else),
        ],
    }
    .in_auto_sets();
    let resource_mut_only = System {
        params: vec![ParamShape::ResMut(something)],
    }
    .in_auto_sets();
    let other_res_only = System {
        params: vec![ParamShape::Res(something_else)],
    }
    .in_auto_sets();

    assert!(
        resource_mixed.is_member(&reads_set(something))
            && !resource_mut_only.is_member(&reads_set(something))
            && !other_res_only.is_member(&reads_set(something))
    );
    assert!(
        resource_mut_only.is_member(&writes_set(something))
            && !resource_mixed.is_member(&writes_set(something))
            && !other_res_only.is_member(&writes_set(something))
    );
    assert!(
        other_res_only.is_member(&reads_set(something_else))
            && !resource_mixed.is_member(&reads_set(something_else))
            && !resource_mut_only.is_member(&reads_set(something_else))
    );
    assert!(
        resource_mixed.is_member(&writes_set(something_else))
            && !resource_mut_only.is_member(&writes_set(something_else))
            && !other_res_only.is_member(&writes_set(something_else))
    );
}

#[test]
fn queries_create_autosets() {
    let some_data = SlotId { key: 1 };
    let other_data = SlotId { key: 2 };
    let with_query = System {
        params: vec![ParamShape::Query(
            vec![
                QueryField::ReadField(some_data),
                QueryField::WriteField(other_data),
                QueryField::RowIdField,
            ],
            vec![],
        )],
    }
    .in_auto_sets();

    assert_eq!(2, with_query.membership_count());
    assert!(with_query.is_member(&reads_set(some_data)));
    assert!(with_query.is_member(&writes_set(other_data)));
}

#[test]
fn query_filters_influence_autosets() {
    let some_data = SlotId { key: 1 };
    let other_data = SlotId { key: 2 };
    let data_number_three = SlotId { key: 3 };
    let data_number_four = SlotId { key: 4 };
    let with_query_filter = System {
        params: vec![ParamShape::Query(
            vec![QueryField::ReadField(some_data)],
            vec![
                QueryFilter::WithFilter(other_data),
                QueryFilter::OrFilters(vec![
                    QueryFilter::AddedFilter(data_number_three),
                    QueryFilter::ChangedFilter(data_number_four),
                ]),
            ],
        )],
    }
    .in_auto_sets();

    assert!(
        with_query_filter.is_member(&reads_set(some_data))
            && with_query_filter.is_member(&reads_set(other_data))
            && with_query_filter.is_member(&reads_set(data_number_three))
            && with_query_filter.is_member(&reads_set(data_number_four))
    );
}

#[test]
fn big_system_test() {
    let some_data = SlotId { key: 1 };
    let other_data = SlotId { key: 2 };
    let data_number_three = SlotId { key: 3 };
    let data_number_four = SlotId { key: 4 };
    let something = SlotId { key: 5 };
    let big_system = System {
        params: vec![ParamShape::ParamSet(vec![
            ParamShape::Infra,
            ParamShape::Query(
                vec![
                    QueryField::WriteField(other_data),
                    QueryField::WriteField(data_number_three),
                ],
                vec![QueryFilter::WithFilter(some_data)],
            ),
            ParamShape::ResMut(something),
            ParamShape::Optional(Box::new(ParamShape::Query(
                vec![
                    QueryField::WriteField(data_number_three),
                    QueryField::ReadField(data_number_four),
                ],
                vec![QueryFilter::ChangedFilter(some_data)],
            ))),
        ])],
    }
    .in_auto_sets();

    assert!(
        big_system.is_member(&reads_set(some_data))
            && big_system.is_member(&writes_set(other_data))
            && big_system.is_member(&writes_set(data_number_three))
            && big_system.is_member(&reads_set(data_number_four))
            && big_system.is_member(&writes_set(something))
    );
}

#[test]
fn sanity_each() {
    let something = SlotId { key: 1 };
    let resource_only = || System {
        params: vec![ParamShape::Res(something)],
    };
    let resource_mut_only = || System {
        params: vec![ParamShape::ResMut(something)],
    };
    (resource_only(),).each_in_auto_sets();
    (resource_only(), resource_mut_only()).each_in_auto_sets();
    vec![resource_only(), resource_mut_only()].each_in_auto_sets();
}

#[test]
fn parameter_order_is_irrelevant() {
    let something = SlotId { key: 1 };
    let some_event = SlotId { key: 2 };
    let one_way = System {
        params: vec![
            ParamShape::Res(something),
            ParamShape::EventWriter(some_event),
        ],
    }
    .in_auto_sets();
    let other_way = System {
        params: vec![
            ParamShape::EventWriter(some_event),
            ParamShape::Res(something),
        ],
    }
    .in_auto_sets();
    assert!(same_memberships(&one_way, &other_way));
}

#[test]
fn each_matches_individual_inference() {
    let a = SlotId { key: 1 };
    let b = SlotId { key: 2 };
    let c = SlotId { key: 3 };
    let make_group = || {
        vec![
            System {
                params: vec![ParamShape::EventReader(a), ParamShape::ResMut(b)],
            },
            System { params: vec![] },
            System {
                params: vec![ParamShape::Query(
                    vec![QueryField::WriteField(c)],
                    vec![QueryFilter::WithFilter(a)],
                )],
            },
        ]
    };

    let grouped = make_group().each_in_auto_sets();
    let individual: Vec<SystemConfig> = make_group()
        .into_iter()
        .map(|s| s.in_auto_sets())
        .collect();

    assert_eq!(grouped.len(), individual.len());
    for (g, i) in grouped.iter().zip(individual.iter()) {
        assert!(same_memberships(g, i));
    }
}

#[test]
fn zero_parameters_zero_memberships() {
    let empty = System { params: vec![] }.in_auto_sets();
    assert_eq!(0, empty.membership_count());
}

#[test]
fn repeated_access_is_idempotent() {
    let something = SlotId { key: 1 };
    let twice = System {
        params: vec![ParamShape::Res(something), ParamShape::Res(something)],
    }
    .in_auto_sets();
    assert_eq!(1, twice.membership_count());
    assert!(twice.is_member(&reads_set(something)));
}

#[test]
fn optional_param_delegates() {
    let some_event = SlotId { key: 1 };
    let maybe_reader = System {
        params: vec![ParamShape::Optional(Box::new(ParamShape::EventReader(
            some_event,
        )))],
    }
    .in_auto_sets();
    assert!(maybe_reader.is_member(&reads_set(some_event)));
    assert_eq!(1, maybe_reader.membership_count());
}

#[test]
fn non_send_globals_sorting() {
    let window_handle = SlotId { key: 1 };
    let audio_device = SlotId { key: 2 };
    let config = System {
        params: vec![
            ParamShape::NonSend(window_handle),
            ParamShape::NonSendMut(audio_device),
        ],
    }
    .in_auto_sets();
    assert!(config.is_member(&reads_set(window_handle)));
    assert!(config.is_member(&writes_set(audio_device)));
    assert_eq!(2, config.membership_count());
}

#[test]
fn name_projection_implies_read() {
    let name_component = SlotId { key: 9 };
    let config = System {
        params: vec![ParamShape::Query(
            vec![QueryField::NameField(name_component), QueryField::RowIdField],
            vec![],
        )],
    }
    .in_auto_sets();
    assert!(config.is_member(&reads_set(name_component)));
    assert_eq!(1, config.membership_count());
}

#[test]
fn without_filter_implies_read() {
    let some_data = SlotId { key: 1 };
    let excluded = SlotId { key: 2 };
    let config = System {
        params: vec![ParamShape::Query(
            vec![QueryField::ReadField(some_data)],
            vec![QueryFilter::WithoutFilter(excluded)],
        )],
    }
    .in_auto_sets();
    assert!(config.is_member(&reads_set(excluded)));
}

#[test]
fn any_of_fields_union() {
    let some_data = SlotId { key: 1 };
    let other_data = SlotId { key: 2 };
    let config = System {
        params: vec![ParamShape::Query(
            vec![QueryField::AnyOfFields(vec![
                QueryField::ReadField(some_data),
                QueryField::ReadField(other_data),
            ])],
            vec![],
        )],
    }
    .in_auto_sets();
    assert!(config.is_member(&reads_set(some_data)));
    assert!(config.is_member(&reads_set(other_data)));
}

#[test]
fn param_set_takes_union_of_alternatives() {
    let res_one = SlotId { key: 1 };
    let res_two = SlotId { key: 2 };
    let config = System {
        params: vec![ParamShape::ParamSet(vec![
            ParamShape::Res(res_one),
            ParamShape::ResMut(res_two),
        ])],
    }
    .in_auto_sets();
    assert!(config.is_member(&reads_set(res_one)));
    assert!(config.is_member(&writes_set(res_two)));
    assert_eq!(2, config.membership_count());
}

#[test]
fn manual_marks_are_additive() {
    let some_event = SlotId { key: 1 };
    let new_resource = SlotId { key: 2 };
    let some_component = SlotId { key: 3 };

    let system1 = System {
        params: vec![ParamShape::EventReader(some_event)],
    }
    .in_auto_sets()
    .writes(new_resource);
    assert!(system1.is_member(&reads_set(some_event)));
    assert!(system1.is_member(&writes_set(new_resource)));
    assert_eq!(2, system1.membership_count());

    let system2 = System {
        params: vec![ParamShape::EventReader(some_event)],
    }
    .reads(new_resource)
    .writes(some_component);
    assert!(system2.is_member(&reads_set(new_resource)));
    assert!(system2.is_member(&writes_set(some_component)));
    assert!(!system2.is_member(&reads_set(some_event)));
    assert_eq!(2, system2.membership_count());
}

#[test]
fn inference_after_manual_marks() {
    let some_event = SlotId { key: 1 };
    let new_resource = SlotId { key: 2 };
    let config = System {
        params: vec![ParamShape::EventWriter(some_event)],
    }
    .writes(new_resource)
    .in_auto_sets();
    assert!(config.is_member(&writes_set(new_resource)));
    assert!(config.is_member(&writes_set(some_event)));
    assert_eq!(2, config.membership_count());
}
