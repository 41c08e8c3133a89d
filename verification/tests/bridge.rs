use e32_simulator::bridge::{
    banner, Bridge, Outcome, Side, SpeedChange, AIR_BAUD, BOOTSTRAP_BAUD, BUFF_SIZE, HOST_BAUD,
};
use e32_simulator::e32_module::{AirDataRate, E32State, UartBps};
use e32_simulator::timing::MAX_WAIT_TIMES;

fn no_change() -> SpeedChange {
    SpeedChange { host: None, air: None }
}

fn stored(bridge: &Bridge) -> [u8; 6] {
    let mut out = [0u8; 6];
    bridge.module().get_params(&mut out);
    out
}

#[test]
fn mode_lines_select_the_state() {
    assert_eq!(E32State::from_lines(false, false), E32State::Normal);
    assert_eq!(E32State::from_lines(true, false), E32State::WakeUp);
    assert_eq!(E32State::from_lines(false, true), E32State::PowerSaving);
    assert_eq!(E32State::from_lines(true, true), E32State::Sleep);
}

#[test]
fn state_follows_the_lines_from_every_state() {
    let lines = [(false, false), (true, false), (false, true), (true, true)];
    for from in lines {
        for to in lines {
            let mut bridge = Bridge::new(BUFF_SIZE, MAX_WAIT_TIMES);
            bridge.on_lines(from.0, from.1);
            assert_eq!(bridge.state(), E32State::from_lines(from.0, from.1));
            bridge.on_lines(to.0, to.1);
            assert_eq!(bridge.state(), E32State::from_lines(to.0, to.1));
        }
    }
}

#[test]
fn bridge_constants() {
    assert_eq!(BUFF_SIZE, 256);
    assert_eq!(BOOTSTRAP_BAUD, 9600);
    assert_eq!(banner(), "ESP32 E32 Module Bridge\n");
}

#[test]
fn sides_start_at_their_speeds_with_matching_timer_periods() {
    assert_eq!(HOST_BAUD, 57600);
    assert_eq!(AIR_BAUD, 19200);
    assert_eq!(Side::Host.start_baud(), 57600);
    assert_eq!(Side::Air.start_baud(), 19200);
    assert_eq!(Side::Host.byte_time(), 140);
    assert_eq!(Side::Air.byte_time(), 416);
}

#[test]
fn sides_are_opposite_to_each_other() {
    assert_eq!(Side::Host.opposite(), Side::Air);
    assert_eq!(Side::Air.opposite(), Side::Host);
}

#[test]
fn new_bridge_is_normal_and_empty() {
    let bridge = Bridge::new(BUFF_SIZE, MAX_WAIT_TIMES);
    assert_eq!(bridge.state(), E32State::Normal);
    assert_eq!(bridge.lane(Side::Host).available(), 0);
    assert_eq!(bridge.lane(Side::Air).available(), 0);
    assert_eq!(stored(&bridge), [0xC0, 0x00, 0x00, 0x1A, 0x17, 0x44]);
}

#[test]
fn entering_sleep_sets_the_bootstrap_speed_on_the_host_side() {
    let mut bridge = Bridge::new(8, 3);
    assert_eq!(bridge.on_lines(false, false), no_change());
    assert_eq!(bridge.on_lines(true, true), SpeedChange { host: Some(9600), air: None });
    assert_eq!(bridge.on_lines(true, true), no_change());
}

#[test]
fn leaving_sleep_restores_the_stored_speeds() {
    let mut bridge = Bridge::new(8, 3);
    bridge.on_lines(true, true);
    assert_eq!(
        bridge.on_lines(false, false),
        SpeedChange { host: Some(9600), air: Some(2400) }
    );
    bridge.on_lines(true, true);
    for b in [0xC0u8, 0, 0, 0x3D, 0x17, 0x44] {
        bridge.on_byte(Side::Host, b);
    }
    assert_eq!(bridge.module().uart_bps(), UartBps::Bps115200);
    assert_eq!(bridge.module().air_data_rate(), AirDataRate::Rate19200);
    assert_eq!(
        bridge.on_lines(true, false),
        SpeedChange { host: Some(115200), air: Some(19200) }
    );
    assert_eq!(bridge.on_lines(false, true), no_change());
    assert_eq!(bridge.on_lines(false, false), no_change());
}

#[test]
fn normal_state_relays_silence_terminated_runs() {
    let mut bridge = Bridge::new(BUFF_SIZE, MAX_WAIT_TIMES);
    for b in [b'h', b'e', b'y'] {
        assert_eq!(bridge.on_byte(Side::Host, b), Outcome::Nothing);
    }
    assert_eq!(bridge.lane(Side::Host).available(), 3);
    assert_eq!(bridge.lane(Side::Air).available(), 0);
    assert_eq!(bridge.on_tick(Side::Air, true), Outcome::Nothing);
    assert_eq!(bridge.on_tick(Side::Host, false), Outcome::ArmTimer(Side::Host));
    assert_eq!(bridge.on_tick(Side::Host, false), Outcome::Nothing);
    assert_eq!(bridge.on_tick(Side::Host, true), Outcome::ArmTimer(Side::Host));
    assert_eq!(bridge.on_tick(Side::Host, true), Outcome::ArmTimer(Side::Host));
    assert_eq!(bridge.on_tick(Side::Host, true), Outcome::Flush { to: Side::Air, burst: vec![b'h', b'e', b'y'] });
    assert_eq!(bridge.on_tick(Side::Host, true), Outcome::Nothing);
    assert_eq!(bridge.lane(Side::Host).available(), 0);
}

#[test]
fn the_two_directions_do_not_mix() {
    let mut bridge = Bridge::new(BUFF_SIZE, MAX_WAIT_TIMES);
    bridge.on_byte(Side::Host, 1);
    bridge.on_byte(Side::Air, 2);
    bridge.on_byte(Side::Host, 3);
    assert_eq!(bridge.on_tick(Side::Air, false), Outcome::ArmTimer(Side::Air));
    assert_eq!(bridge.on_tick(Side::Air, true), Outcome::ArmTimer(Side::Air));
    assert_eq!(bridge.on_tick(Side::Air, true), Outcome::ArmTimer(Side::Air));
    assert_eq!(bridge.on_tick(Side::Air, true), Outcome::Flush { to: Side::Host, burst: vec![2] });
    assert_eq!(bridge.on_tick(Side::Host, false), Outcome::ArmTimer(Side::Host));
    assert_eq!(bridge.on_tick(Side::Host, true), Outcome::ArmTimer(Side::Host));
    assert_eq!(bridge.on_tick(Side::Host, true), Outcome::ArmTimer(Side::Host));
    assert_eq!(bridge.on_tick(Side::Host, true), Outcome::Flush { to: Side::Air, burst: vec![1, 3] });
}

#[test]
fn overflow_drops_the_newest_bytes_and_counts_them() {
    let mut bridge = Bridge::new(2, 3);
    for b in [1u8, 2, 3, 4, 5] {
        assert_eq!(bridge.on_byte(Side::Air, b), Outcome::Nothing);
    }
    assert_eq!(bridge.lane(Side::Air).available(), 2);
    assert_eq!(bridge.lane(Side::Air).dropped(), 3);
    assert_eq!(bridge.lane(Side::Host).dropped(), 0);
    assert_eq!(bridge.on_tick(Side::Air, false), Outcome::ArmTimer(Side::Air));
    assert_eq!(bridge.on_tick(Side::Air, true), Outcome::ArmTimer(Side::Air));
    assert_eq!(bridge.on_tick(Side::Air, true), Outcome::ArmTimer(Side::Air));
    assert_eq!(bridge.on_tick(Side::Air, true), Outcome::Flush { to: Side::Host, burst: vec![1, 2] });
}

#[test]
fn sleep_answers_a_write_command() {
    let mut bridge = Bridge::new(8, 3);
    bridge.on_lines(true, true);
    for b in [0xC0u8, 0x01, 0x02, 0x1A, 0x06] {
        assert_eq!(bridge.on_byte(Side::Host, b), Outcome::Nothing);
    }
    assert_eq!(bridge.on_byte(Side::Host, 0x40), Outcome::Reply(String::from("OK")));
    assert_eq!(stored(&bridge), [0xC0, 0x01, 0x02, 0x1A, 0x06, 0x40]);
}

#[test]
fn sleep_answers_a_read_command() {
    let mut bridge = Bridge::new(8, 3);
    bridge.on_lines(true, true);
    assert_eq!(bridge.on_byte(Side::Host, 0xC1), Outcome::Nothing);
    assert_eq!(bridge.on_byte(Side::Host, 0xC1), Outcome::Nothing);
    assert_eq!(
        bridge.on_byte(Side::Host, 0xC1),
        Outcome::Reply(String::from("C0 00 00 1A 17 44"))
    );
}

#[test]
fn sleep_refuses_a_malformed_command_and_goes_on() {
    let mut bridge = Bridge::new(8, 3);
    bridge.on_lines(true, true);
    for b in [0xC5u8, 1, 2, 3, 4] {
        assert_eq!(bridge.on_byte(Side::Host, b), Outcome::Nothing);
    }
    assert_eq!(bridge.on_byte(Side::Host, 5), Outcome::Reply(String::from("ERROR")));
    assert_eq!(stored(&bridge), [0xC0, 0x00, 0x00, 0x1A, 0x17, 0x44]);
    bridge.on_byte(Side::Host, 0xC1);
    bridge.on_byte(Side::Host, 0xC1);
    assert_eq!(
        bridge.on_byte(Side::Host, 0xC1),
        Outcome::Reply(String::from("C0 00 00 1A 17 44"))
    );
}

#[test]
fn sleep_ignores_the_air_side_and_sends_no_run_on() {
    let mut bridge = Bridge::new(8, 3);
    bridge.on_byte(Side::Host, 7);
    bridge.on_lines(true, true);
    assert_eq!(bridge.on_byte(Side::Air, 0xC1), Outcome::Nothing);
    assert_eq!(bridge.on_byte(Side::Air, 0xC1), Outcome::Nothing);
    assert_eq!(bridge.on_byte(Side::Air, 0xC1), Outcome::Nothing);
    assert_eq!(bridge.lane(Side::Air).available(), 0);
    for _ in 0..5 {
        assert_eq!(bridge.on_tick(Side::Host, true), Outcome::Nothing);
    }
    assert_eq!(bridge.lane(Side::Host).available(), 1);
}

#[test]
fn entering_sleep_forgets_a_command_begun_before() {
    let mut bridge = Bridge::new(8, 3);
    bridge.on_lines(true, true);
    bridge.on_byte(Side::Host, 0xC1);
    bridge.on_byte(Side::Host, 0xC1);
    bridge.on_lines(false, false);
    bridge.on_lines(true, true);
    assert_eq!(bridge.on_byte(Side::Host, 0xC1), Outcome::Nothing);
    assert_eq!(bridge.on_byte(Side::Host, 0xC1), Outcome::Nothing);
    assert_eq!(
        bridge.on_byte(Side::Host, 0xC1),
        Outcome::Reply(String::from("C0 00 00 1A 17 44"))
    );
}

#[test]
fn wake_up_and_power_saving_are_not_implemented() {
    for lines in [(true, false), (false, true)] {
        let mut bridge = Bridge::new(8, 3);
        bridge.on_byte(Side::Host, 1);
        bridge.on_lines(lines.0, lines.1);
        assert_eq!(bridge.on_byte(Side::Host, 2), Outcome::Unimplemented);
        assert_eq!(bridge.on_byte(Side::Air, 2), Outcome::Unimplemented);
        assert_eq!(bridge.on_tick(Side::Host, true), Outcome::Unimplemented);
        assert_eq!(bridge.on_tick(Side::Air, true), Outcome::Unimplemented);
        assert_eq!(bridge.lane(Side::Host).available(), 1);
        assert_eq!(bridge.lane(Side::Air).available(), 0);
        assert_eq!(stored(&bridge), [0xC0, 0x00, 0x00, 0x1A, 0x17, 0x44]);
    }
}
