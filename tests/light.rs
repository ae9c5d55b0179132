use growpi::light::should_turn_on_light;

#[test]
fn test_should_turn_on_light() {
    assert!(!should_turn_on_light(24, 5, 4));
    assert!(!should_turn_on_light(24, 5, 5));
    assert!(!should_turn_on_light(24, 5, 6));
    assert!(!should_turn_on_light(24, 0, 0));
    assert!(!should_turn_on_light(24, 0, 23));
    assert!(!should_turn_on_light(24, 0, 1));

    assert!(!should_turn_on_light(23, 5, 4));
    assert!(should_turn_on_light(23, 5, 5));
    assert!(!should_turn_on_light(23, 5, 6));
    assert!(!should_turn_on_light(23, 0, 23));
    assert!(should_turn_on_light(23, 0, 0));
    assert!(!should_turn_on_light(23, 0, 1));

    assert!(!should_turn_on_light(20, 22, 21));
    assert!(should_turn_on_light(20, 22, 22));
    assert!(should_turn_on_light(20, 22, 23));
    assert!(should_turn_on_light(20, 22, 0));
    assert!(should_turn_on_light(20, 22, 1));
    assert!(!should_turn_on_light(20, 22, 2));
}

#[test]
fn light_window_wraps_past_midnight() {
    assert!(!should_turn_on_light(24, 5, 4));
    assert!(should_turn_on_light(23, 5, 5));
    assert!(!should_turn_on_light(23, 5, 6));
    assert!(should_turn_on_light(20, 22, 23));
    assert!(!should_turn_on_light(20, 22, 2));
}

#[test]
fn light_window_covers_whole_day_without_light() {
    for hour in 0..24 {
        assert!(should_turn_on_light(0, 7, hour));
    }
    assert!(!should_turn_on_light(0, 7, 24));
}

#[test]
fn light_window_with_lights_out_beyond_a_day() {
    // 29 is hour 5 of the next day.
    assert!(should_turn_on_light(23, 29, 5));
    assert!(!should_turn_on_light(23, 29, 6));
}
