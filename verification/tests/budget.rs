use orca_runtime::budget::{
    exhausted_dimension, intersect_specs, BudgetSpec, BudgetUsage, OperationTerminal, StopReason,
};
use orca_runtime::budget_controller::BudgetController;
use orca_runtime::budget_soft_landing::{
    format_soft_landing_message, pending_cost_budget_reminder, pending_goal_token_reminder,
    pending_inner_turn_reminder, SoftLandingKind, SoftLandingReminder,
};
use orca_runtime::double::{print_dollars, to_double};

fn spec() -> BudgetSpec {
    BudgetSpec::unlimited()
}

#[test]
fn inner_turn_reminder_crosses_thresholds_once_each() {
    let max = 128;
    assert!(pending_inner_turn_reminder(max, 100, 0).is_none());

    let first = pending_inner_turn_reminder(max, 112, 0).expect("16-remaining reminder");
    assert_eq!(first.remaining, 16);
    assert_eq!(first.reminder_index, 1);
    assert!(pending_inner_turn_reminder(max, 112, 1).is_none());

    let second = pending_inner_turn_reminder(max, 120, 1).expect("8-remaining reminder");
    assert_eq!(second.remaining, 8);
    assert_eq!(second.reminder_index, 2);

    let jumped = pending_inner_turn_reminder(max, 126, 0).expect("jumped thresholds");
    assert_eq!(jumped.remaining, 2);
    assert_eq!(jumped.reminder_index, 4);
}

#[test]
fn cost_and_goal_token_reminders_use_fraction_thresholds() {
    let cost = pending_cost_budget_reminder(1_000_000, 800_000, 0).expect("25% remaining cost");
    assert_eq!(cost.reminder_index, 1);
    assert!(pending_cost_budget_reminder(1_000_000, 800_000, 1).is_none());

    let tokens = pending_goal_token_reminder(10_000, 9_200, 0).expect("8% remaining tokens");
    assert_eq!(tokens.reminder_index, 2);
    assert_eq!(tokens.remaining, 800);
}

#[test]
fn soft_landing_message_mentions_remaining_budget() {
    let reminder = SoftLandingReminder {
        remaining: 4,
        reminder_index: 3,
        kind: SoftLandingKind::InnerTurns { max_turns: 128 },
    };
    let message = format_soft_landing_message(&reminder);
    assert!(message.contains("4 of 128"));
    assert!(message.contains("Do not mark the goal complete"));
}

#[test]
fn unlimited_controller_admits_more_than_128_turns_and_tools() {
    let mut controller = BudgetController::new(spec());
    for _ in 0..200 {
        controller.admit_turn(0).expect("unlimited turns admit");
        controller
            .admit_tool_call(0)
            .expect("unlimited tool calls admit");
    }
    assert_eq!(controller.usage().turns, 200);
    assert_eq!(controller.usage().tool_calls, 200);
    assert!(matches!(
        controller.terminal(),
        OperationTerminal::Completed { usage }
            if usage.turns == 200 && usage.tool_calls == 200
    ));
}

#[test]
fn turn_budget_stops_on_exhausted_dimension() {
    let mut controller = BudgetController::new(BudgetSpec {
        max_turns: Some(3),
        ..spec()
    });
    for _ in 0..3 {
        controller.admit_turn(0).expect("within budget");
    }
    let stop = controller.admit_turn(0).expect_err("4th turn stopped");
    assert_eq!(stop.reason, StopReason::TurnBudget { max_turns: 3 });
    assert_eq!(stop.usage.turns, 3);
    let again = controller.admit_turn(0).expect_err("latched stop");
    assert_eq!(again.reason, stop.reason);
}

#[test]
fn tool_call_budget_stops_independently_of_turns() {
    let mut controller = BudgetController::new(BudgetSpec {
        max_tool_calls: Some(2),
        ..spec()
    });
    controller.admit_turn(0).expect("turn admits");
    controller.admit_tool_call(0).expect("tool 1");
    controller.admit_tool_call(0).expect("tool 2");
    let stop = controller.admit_tool_call(0).expect_err("tool 3 stopped");
    assert_eq!(
        stop.reason,
        StopReason::ToolCallBudget { max_tool_calls: 2 }
    );
    assert_eq!(stop.usage.tool_calls, 2);
}

#[test]
fn cost_budget_stops_when_usage_exceeds_limit() {
    let mut controller = BudgetController::new(BudgetSpec {
        max_cost_usd_micros: Some(1_000),
        ..spec()
    });
    controller
        .record_cost_usd_micros(900, 0)
        .expect("under budget");
    let stop = controller
        .record_cost_usd_micros(200, 0)
        .expect_err("over budget");
    assert_eq!(
        stop.reason,
        StopReason::CostBudget {
            max_cost_usd_micros: 1_000
        }
    );
    assert_eq!(stop.usage.cost_usd_micros, 1_100);
}

#[test]
fn wall_time_budget_stops_when_elapsed_exceeds_limit() {
    let mut controller = BudgetController::new(BudgetSpec {
        max_wall_time_ms: Some(1),
        ..spec()
    });
    let stop = controller.admit_turn(2).expect_err("wall time exceeded");
    assert!(matches!(stop.reason, StopReason::WallTimeBudget { .. }));
    assert_eq!(stop.usage.wall_time_ms, 2);
}

#[test]
fn checkpoint_controls_resumability_of_stopped_terminal() {
    let mut controller = BudgetController::new(BudgetSpec {
        max_turns: Some(1),
        ..spec()
    });
    controller.admit_turn(0).expect("turn 1");
    controller.admit_turn(0).expect_err("turn 2 stopped");

    match controller.terminal() {
        OperationTerminal::Stopped {
            checkpoint_id,
            resumable,
            ..
        } => {
            assert!(!resumable);
            assert!(checkpoint_id.is_empty());
        }
        other => panic!("expected Stopped, got {:?}", other),
    }

    controller.record_checkpoint("cp-1".to_string());
    match controller.terminal() {
        OperationTerminal::Stopped {
            checkpoint_id,
            resumable,
            ..
        } => {
            assert!(resumable);
            assert_eq!(checkpoint_id, "cp-1");
        }
        other => panic!("expected Stopped, got {:?}", other),
    }
}

#[test]
fn inner_turn_soft_landing_reminders_arrive_before_the_wall() {
    let mut controller = BudgetController::new(BudgetSpec {
        max_turns: Some(32),
        ..spec()
    });
    assert!(controller.take_pending_soft_landing().is_none());
    for _ in 0..16 {
        controller.admit_turn(0).expect("admit");
    }
    let reminder = controller
        .take_pending_soft_landing()
        .expect("16-remaining reminder");
    assert!(reminder.contains("16"));
    assert!(controller.take_pending_soft_landing().is_none());
    assert!(matches!(
        controller.terminal(),
        OperationTerminal::Completed { .. }
    ));
}

#[test]
fn cost_soft_landing_reminder_uses_fraction_thresholds() {
    let mut controller = BudgetController::new(BudgetSpec {
        max_cost_usd_micros: Some(1_000_000),
        ..spec()
    });
    assert!(controller.take_pending_soft_landing().is_none());
    controller
        .record_cost_usd_micros(750_000, 0)
        .expect("under budget");
    let reminder = controller
        .take_pending_soft_landing()
        .expect("25%-remaining reminder");
    assert!(reminder.contains("Cost budget"));
    assert!(controller.take_pending_soft_landing().is_none());
}

#[test]
fn child_lease_is_bounded_by_child_spec_and_reports_consumed_usage() {
    let mut controller = BudgetController::new(spec());
    let mut lease = controller
        .child_lease(
            BudgetSpec {
                max_turns: Some(2),
                ..spec()
            },
            0,
        )
        .expect("child lease granted");
    lease.admit_turn().expect("child turn 1");
    lease.admit_turn().expect("child turn 2");
    let stop = lease.admit_turn().expect_err("child turn 3 stopped");
    assert_eq!(stop.reason, StopReason::TurnBudget { max_turns: 2 });

    let consumed = lease.finish();
    assert_eq!(consumed.turns, 2);

    controller
        .merge_child_usage(consumed, 0)
        .expect("child usage merges");
    assert_eq!(controller.usage().turns, 2);
}

#[test]
fn child_lease_never_exceeds_parent_remaining_budget() {
    let mut controller = BudgetController::new(BudgetSpec {
        max_turns: Some(1),
        ..spec()
    });
    controller.admit_turn(0).expect("parent turn 1");
    let stop = controller
        .child_lease(
            BudgetSpec {
                max_turns: Some(1),
                ..spec()
            },
            0,
        )
        .expect_err("parent exhausted");
    assert_eq!(stop.reason, StopReason::TurnBudget { max_turns: 1 });
}

#[test]
fn child_lease_effective_spec_is_intersection_with_parent_remaining() {
    let mut controller = BudgetController::new(BudgetSpec {
        max_turns: Some(3),
        ..spec()
    });
    controller.admit_turn(0).expect("parent turn 1");
    let mut lease = controller
        .child_lease(
            BudgetSpec {
                max_turns: Some(3),
                ..spec()
            },
            0,
        )
        .expect("child lease granted");
    lease.admit_turn().expect("child turn 1");
    lease.admit_turn().expect("child turn 2");
    let stop = lease.admit_turn().expect_err("child turn 3 stopped");
    assert_eq!(stop.reason, StopReason::TurnBudget { max_turns: 2 });
}

#[test]
fn zero_dimensions_are_rejected_at_construction() {
    let refused = BudgetSpec {
        max_turns: Some(0),
        ..spec()
    };
    assert!(refused.validate().is_err());
    assert!(spec().validate().is_ok());
}

#[test]
fn validation_names_the_zero_dimension() {
    let cost = BudgetSpec {
        max_cost_usd_micros: Some(0),
        max_wall_time_ms: Some(0),
        ..spec()
    };
    let error = cost.validate().unwrap_err();
    assert!(error.contains("max_cost_usd_micros"), "{}", error);
    assert!(error.ends_with(" must be greater than zero"));
}

#[test]
fn exhaustion_names_the_first_dimension() {
    let limits = BudgetSpec {
        max_turns: Some(1),
        max_tool_calls: Some(1),
        max_cost_usd_micros: Some(10),
        max_wall_time_ms: Some(10),
    };
    let used = BudgetUsage {
        turns: 0,
        tool_calls: 1,
        cost_usd_micros: 11,
        wall_time_ms: 11,
    };
    assert_eq!(
        exhausted_dimension(&limits, &used),
        Some(StopReason::ToolCallBudget { max_tool_calls: 1 })
    );
    let at_cost = BudgetUsage {
        turns: 0,
        tool_calls: 0,
        cost_usd_micros: 10,
        wall_time_ms: 10,
    };
    assert_eq!(exhausted_dimension(&limits, &at_cost), None);
}

#[test]
fn intersections_take_the_tighter_limit() {
    let left = BudgetSpec {
        max_turns: Some(4),
        max_cost_usd_micros: Some(7),
        ..spec()
    };
    let right = BudgetSpec {
        max_turns: Some(9),
        max_tool_calls: Some(2),
        ..spec()
    };
    assert_eq!(
        intersect_specs(left, right),
        BudgetSpec {
            max_turns: Some(4),
            max_tool_calls: Some(2),
            max_cost_usd_micros: Some(7),
            max_wall_time_ms: None,
        }
    );
}

#[test]
fn usage_counters_saturate() {
    let mut usage = BudgetUsage {
        turns: u32::MAX,
        tool_calls: 1,
        cost_usd_micros: u64::MAX - 1,
        wall_time_ms: 0,
    };
    usage.merge(BudgetUsage {
        turns: 1,
        tool_calls: 2,
        cost_usd_micros: 5,
        wall_time_ms: 3,
    });
    assert_eq!(
        usage,
        BudgetUsage {
            turns: u32::MAX,
            tool_calls: 3,
            cost_usd_micros: u64::MAX,
            wall_time_ms: 3,
        }
    );
}

#[test]
fn a_latched_stop_outlives_further_accounting() {
    let mut controller = BudgetController::new(BudgetSpec {
        max_turns: Some(1),
        ..spec()
    });
    controller.admit_turn(0).unwrap();
    controller.admit_turn(0).unwrap_err();
    let stop = controller.record_cost_usd_micros(5, 9).unwrap_err();
    assert_eq!(stop.reason, StopReason::TurnBudget { max_turns: 1 });
    assert_eq!(controller.usage().cost_usd_micros, 0);
}

#[test]
fn cost_messages_show_four_decimals() {
    let reminder = pending_cost_budget_reminder(2_000_000, 1_512_345, 0).expect("reminder");
    let message = format_soft_landing_message(&reminder);
    assert!(message.contains("0.4877"), "{}", message);
}

/// Numbers of all sizes, spread by a fixed rule.
fn spread(count: u32) -> Vec<u64> {
    let mut state: u64 = 0x9e37_79b9_7f4a_7c15;
    let mut numbers = Vec::new();
    for round in 0..count {
        state ^= state << 13;
        state ^= state >> 7;
        state ^= state << 17;
        numbers.push(state >> (round % 64));
    }
    numbers
}

#[test]
fn amounts_are_printed_as_doubles() {
    let mut amounts: Vec<u64> = (0..2_000).map(|n| n * 50).collect();
    amounts.extend([
        31_250,
        93_750,
        156_250,
        1 << 53,
        (1 << 53) + 1,
        u64::MAX,
        u64::MAX - 1_024,
    ]);
    amounts.extend(spread(4_000));
    for micros in amounts {
        let dollars = micros as f64 / 1_000_000.0;
        assert_eq!(print_dollars(micros, 10_000, 4), format!("{dollars:.4}"));
        assert_eq!(print_dollars(micros, 1_000_000, 6), format!("{dollars:.6}"));
        assert_eq!(to_double(micros), micros as f64 as u128);
    }
    assert_eq!(print_dollars(150, 10_000, 4), "0.0001");
}

#[test]
fn fractions_are_crossed_as_doubles() {
    let expected = |remaining: u64, total: u64| {
        let fraction = remaining as f64 / total as f64;
        [0.25, 0.10, 0.05]
            .iter()
            .filter(|threshold| fraction <= **threshold)
            .count() as u32
    };
    let check = |remaining: u64, total: u64| {
        let due = pending_cost_budget_reminder(total, total - remaining, 0);
        assert_eq!(
            due.map_or(0, |reminder| reminder.reminder_index),
            expected(remaining, total)
        );
    };
    for total in spread(4_000) {
        if total == 0 {
            continue;
        }
        for part in [4, 10, 20] {
            let edge = total / part;
            for remaining in [edge.saturating_sub(1), edge, edge + 1] {
                if remaining <= total {
                    check(remaining, total);
                }
            }
        }
    }
    check(25, 100);
    check(10, 100);
    check(5, 100);
    check(u64::MAX / 4, u64::MAX);
    check(u64::MAX / 4 + 1, u64::MAX);
}
