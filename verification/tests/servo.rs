use rustpill::angle::{angle_to_duty_cycle, duty_cycle_to_angle, pulse_to_duty_cycle};
use rustpill::channel::PwmChannel;
use rustpill::client::ServoClient;
use rustpill::error::{BoardError, InvalidArgument};
use rustpill::servo;
use rustpill::servo::{PwmCommand, ServoChannelConfig, ServoConfig};

fn boot() -> ServoConfig {
    ServoConfig::boot(14400)
}

#[test]
fn boot_configuration_has_the_servo_pulse_range() {
    let c = boot();
    assert_eq!(c.servo_frequency, 50);
    assert_eq!(c.max_duty_cycle, 14400);
    for ch in c.channels {
        assert_eq!(ch.min_angle_duty_cycle, 360);
        assert_eq!(ch.max_angle_duty_cycle, 1800);
        assert_eq!(ch.current_duty_cycle, 0);
        assert!(!ch.enabled);
    }
    let c = ServoConfig::boot(65535);
    assert_eq!(c.channels[0].min_angle_duty_cycle, 1638);
    assert_eq!(c.channels[0].max_angle_duty_cycle, 8190);
}

#[test]
fn angle_to_duty_is_linear_and_rounded() {
    assert_eq!(angle_to_duty_cycle(0, 360, 1800), 360);
    assert_eq!(angle_to_duty_cycle(90, 360, 1800), 1080);
    assert_eq!(angle_to_duty_cycle(180, 360, 1800), 1800);
    assert_eq!(angle_to_duty_cycle(1, 360, 1800), 368);
    assert_eq!(angle_to_duty_cycle(181, 360, 1800), 1800);
    assert_eq!(angle_to_duty_cycle(255, 360, 1800), 1800);
    // 90 degrees of a range of one: exactly half way, rounded up.
    assert_eq!(angle_to_duty_cycle(90, 10, 11), 11);
    assert_eq!(angle_to_duty_cycle(89, 10, 11), 10);
    assert_eq!(angle_to_duty_cycle(45, 0, 65535), 16384);
    // A range that runs downwards is followed downwards.
    assert_eq!(angle_to_duty_cycle(90, 1800, 360), 1080);
}

#[test]
fn duty_to_angle_is_clamped_and_rounded() {
    assert_eq!(duty_cycle_to_angle(100, 360, 1800), 0);
    assert_eq!(duty_cycle_to_angle(360, 360, 1800), 0);
    assert_eq!(duty_cycle_to_angle(1080, 360, 1800), 90);
    assert_eq!(duty_cycle_to_angle(1800, 360, 1800), 180);
    assert_eq!(duty_cycle_to_angle(2000, 360, 1800), 180);
    assert_eq!(duty_cycle_to_angle(364, 360, 1800), 1);
    assert_eq!(duty_cycle_to_angle(363, 360, 1800), 0);
    assert_eq!(duty_cycle_to_angle(500, 500, 500), 0);
}

#[test]
fn angles_survive_the_way_to_duty_and_back() {
    for angle in 0u8..=180 {
        let duty = angle_to_duty_cycle(angle, 360, 1800);
        assert_eq!(duty_cycle_to_angle(duty, 360, 1800), angle);
    }
}

#[test]
fn pulse_width_to_duty_on_the_16_bit_scale() {
    assert_eq!(pulse_to_duty_cycle(1500, 50), 4915);
    assert_eq!(pulse_to_duty_cycle(20000, 50), 65535);
    assert_eq!(pulse_to_duty_cycle(0, 50), 0);
    assert_eq!(pulse_to_duty_cycle(1500, 0), 0);
    assert_eq!(pulse_to_duty_cycle(u32::MAX, u32::MAX), 65535);
    assert_eq!(pulse_to_duty_cycle(500, 50), 1638);
}

#[test]
fn configuring_a_channel_is_mirrored_and_commanded() {
    let mut ctx = servo::Context { config: boot() };
    let config = ServoChannelConfig {
        min_angle_duty_cycle: 300,
        max_angle_duty_cycle: 2000,
        current_duty_cycle: 3000,
        enabled: true,
    };
    let cmd = servo::configure_channel_handler(&mut ctx, (PwmChannel::Channel2, config));
    assert_eq!(
        cmd,
        PwmCommand::Channel { channel: PwmChannel::Channel2, duty_cycle: 3000, enable: true }
    );
    let echo = servo::get_servo_config_handler(&ctx);
    assert_eq!(echo.channels[1], config);
    assert_eq!(echo.channels[1].current_duty_cycle, 3000);
    assert!(echo.channels[1].enabled);
    assert_eq!(echo.channels[0], boot().channels[0]);
    assert_eq!(echo.channels[2], boot().channels[2]);
    assert_eq!(echo.channels[3], boot().channels[3]);
    assert_eq!(echo.servo_frequency, 50);
}

#[test]
fn changing_the_frequency_switches_every_channel_off() {
    let mut ctx = servo::Context { config: boot() };
    for n in 1u8..=4 {
        let ch = PwmChannel::try_from(n).unwrap();
        let mut config = ctx.config.channel(ch);
        config.enabled = n != 3;
        config.current_duty_cycle = 100 * n as u16;
        servo::configure_channel_handler(&mut ctx, (ch, config));
    }
    let before = ctx.config;
    let cmd = servo::set_frequency_handler(&mut ctx, 333);
    assert_eq!(cmd, PwmCommand::Retune { frequency: 333 });
    for i in 0..4 {
        assert!(!ctx.config.channels[i].enabled);
        assert_eq!(ctx.config.channels[i].current_duty_cycle, before.channels[i].current_duty_cycle);
        assert_eq!(
            ctx.config.channels[i].min_angle_duty_cycle,
            before.channels[i].min_angle_duty_cycle
        );
    }
    assert_eq!(ctx.config.servo_frequency, before.servo_frequency);
    assert_eq!(ctx.config.max_duty_cycle, before.max_duty_cycle);
}

#[test]
fn device_set_angle_rejects_channels_zero_and_five() {
    let mut ctx = servo::Context { config: boot() };
    let before = ctx;
    assert_eq!(servo::set_angle_handler(&mut ctx, (0, 90)), Err(InvalidArgument::Channel(0)));
    assert_eq!(ctx, before);
    assert_eq!(servo::set_angle_handler(&mut ctx, (5, 90)), Err(InvalidArgument::Channel(5)));
    assert_eq!(ctx, before);
    assert_eq!(servo::set_angle_handler(&mut ctx, (2, 181)), Err(InvalidArgument::Angle(181)));
    assert_eq!(ctx, before);
    // The channel number is looked at first.
    assert_eq!(servo::set_angle_handler(&mut ctx, (9, 200)), Err(InvalidArgument::Channel(9)));
}

#[test]
fn device_set_angle_moves_and_enables() {
    let mut ctx = servo::Context { config: boot() };
    let cmd = servo::set_angle_handler(&mut ctx, (3, 90)).unwrap();
    assert_eq!(
        cmd,
        PwmCommand::Channel { channel: PwmChannel::Channel3, duty_cycle: 1080, enable: true }
    );
    assert!(ctx.config.channels[2].enabled);
    assert_eq!(ctx.config.channels[2].current_duty_cycle, 1080);
    assert_eq!(servo::get_angle_handler(&ctx, 3), Ok(90));
    assert_eq!(servo::get_angle_handler(&ctx, 1), Ok(0));
    assert_eq!(servo::get_angle_handler(&ctx, 0), Err(InvalidArgument::Channel(0)));
    assert_eq!(servo::get_angle_handler(&ctx, 5), Err(InvalidArgument::Channel(5)));
}

#[test]
fn client_set_angle_rejects_bad_channels_and_keeps_its_config() {
    let mut client = ServoClient::new(boot());
    let before = client;
    assert_eq!(
        client.set_angle(0, 10),
        Err(BoardError::InvalidData(InvalidArgument::Channel(0)))
    );
    assert_eq!(client, before);
    assert_eq!(
        client.set_angle(5, 10),
        Err(BoardError::InvalidData(InvalidArgument::Channel(5)))
    );
    assert_eq!(client, before);
    assert_eq!(
        client.set_angle(1, 181),
        Err(BoardError::InvalidData(InvalidArgument::Angle(181)))
    );
    assert_eq!(client, before);
}

#[test]
fn client_set_angle_updates_its_copy_and_returns_the_request() {
    let mut client = ServoClient::new(boot());
    let (channel, config) = client.set_angle(4, 180).unwrap();
    assert_eq!(channel, PwmChannel::Channel4);
    assert_eq!(
        config,
        ServoChannelConfig {
            min_angle_duty_cycle: 360,
            max_angle_duty_cycle: 1800,
            current_duty_cycle: 1800,
            enabled: true,
        }
    );
    assert_eq!(client.config.channels[3], config);
    assert_eq!(client.get_angle(4), Ok(180));
    assert_eq!(client.get_angle(1), Ok(0));
    assert_eq!(
        client.get_angle(7),
        Err(BoardError::InvalidData(InvalidArgument::Channel(7)))
    );
}

#[test]
fn client_configure_channel_replaces_only_what_is_given() {
    let mut client = ServoClient::new(boot());
    let (channel, config) = client
        .configure_channel(2, None, Some(700), None, Some(2000))
        .unwrap();
    assert_eq!(channel, PwmChannel::Channel2);
    assert_eq!(
        config,
        ServoChannelConfig {
            min_angle_duty_cycle: 360,
            max_angle_duty_cycle: 2000,
            current_duty_cycle: 700,
            enabled: false,
        }
    );
    assert_eq!(client.config.channels[1], config);
    let (_, config) = client.configure_channel(2, Some(true), None, Some(1), None).unwrap();
    assert_eq!(
        config,
        ServoChannelConfig {
            min_angle_duty_cycle: 1,
            max_angle_duty_cycle: 2000,
            current_duty_cycle: 700,
            enabled: true,
        }
    );
    let before = client;
    assert_eq!(
        client.configure_channel(0, Some(true), None, None, None),
        Err(BoardError::InvalidData(InvalidArgument::Channel(0)))
    );
    assert_eq!(client, before);
}

#[test]
fn client_helpers_follow_the_conversions() {
    let mut client = ServoClient::new(boot());
    assert_eq!(client.angle_to_duty_cycle(90, 360, 1800), 1080);
    assert_eq!(client.duty_cycle_to_angle(1080, 360, 1800), 90);
    assert_eq!(client.us_to_duty_cycle(1500), 4915);
    let mut other = boot();
    other.servo_frequency = 100;
    client.update_config(other);
    assert_eq!(client.config, other);
    assert_eq!(client.us_to_duty_cycle(1500), 9830);
}
