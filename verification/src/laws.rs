//! What holds of the board whatever state it is in: statements about
//! single requests and about requests that follow one another.

use vstd::prelude::*;
use crate::channel::PwmChannel;
use crate::device::{Effect, Inputs, Reply, State};
use crate::error::InvalidArgument;
use crate::message::{Request, Response, WireError};
use crate::dispatch::{Endpoint, HandlerKind};
use crate::payload::{
    channel_config_wire,
    channel_wire,
    flag_wire,
    lemma_channel_config_injective,
    lemma_pidvals_injective,
    lemma_servo_config_injective,
};
use crate::servo::ServoChannelConfig;
use crate::stepper;
use crate::stepper::StepperAction;
use crate::wire::{
    bits32,
    le32,
    lemma_bits32_injective,
    lemma_concat_injective,
    lemma_le16_injective,
    lemma_le32_injective,
};

verus! {

/// A request changes the board in one way only: two outcomes of the same
/// request on the same state with the same readings are the same outcome.
pub proof fn lemma_step_deterministic(
    s: State,
    request: Request,
    inputs: Inputs,
    a: (State, Reply, Effect),
    b: (State, Reply, Effect),
)
    requires
        s.steps_to(request, inputs, a.0, a.1, a.2),
        s.steps_to(request, inputs, b.0, b.1, b.2),
    ensures
        a.1 == b.1,
        a.2 == b.2,
        a.0.heater == b.0.heater,
        a.0.stepper == b.0.stepper,
        a.0.log == b.0.log,
        a.0.servo.config.servo_frequency == b.0.servo.config.servo_frequency,
        a.0.servo.config.max_duty_cycle == b.0.servo.config.max_duty_cycle,
        a.0.servo.config.channels@ == b.0.servo.config.channels@,
{
    match request {
        Request::ServoFrequency(_) => {
            assert(a.0.servo.config.channels@ =~= b.0.servo.config.channels@) by {
                assert forall|i: int| 0 <= i < 4 implies a.0.servo.config.channels@[i]
                    == b.0.servo.config.channels@[i] by {
                    assert(a.0.servo.config.channels@[i] == s.servo.config.channels@[i].disabled());
                    assert(b.0.servo.config.channels@[i] == s.servo.config.channels@[i].disabled());
                }
            }
        },
        _ => {},
    }
}

/// No two requests to one endpoint have the same payload: what a payload
/// is read as is the request that was written.
pub proof fn lemma_request_wire_injective(a: Request, b: Request)
    requires
        a.spec_endpoint() == b.spec_endpoint(),
        a.wire() == b.wire(),
    ensures
        a == b,
{
    match a {
        Request::HeaterSetPwm(x) => {
            let y = b->HeaterSetPwm_0;
            lemma_le16_injective(x, y);
        },
        Request::PidSetpoint(x) => {
            let y = b->PidSetpoint_0;
            lemma_le16_injective(x, y);
        },
        Request::PidSetConsts(p, i) => {
            let q = b->PidSetConsts_0;
            let j = b->PidSetConsts_1;
            lemma_concat_injective(le32(bits32(p)), le32(bits32(i)), le32(bits32(q)), le32(bits32(j)));
            lemma_le32_injective(bits32(p), bits32(q));
            lemma_le32_injective(bits32(i), bits32(j));
            lemma_bits32_injective(p, q);
            lemma_bits32_injective(i, j);
        },
        Request::ServoSetAngle(c, x) => {
            assert(a.wire()[0] == c && a.wire()[1] == x);
            assert(b.wire()[0] == b->ServoSetAngle_0 && b.wire()[1] == b->ServoSetAngle_1);
        },
        Request::ServoGetAngle(c) => {
            assert(a.wire()[0] == c && b.wire()[0] == b->ServoGetAngle_0);
        },
        Request::StepperDirection(c) => {
            assert(a.wire()[0] == c && b.wire()[0] == b->StepperDirection_0);
        },
        Request::ServoChannel(c, x) => {
            let d = b->ServoChannel_0;
            let y = b->ServoChannel_1;
            lemma_concat_injective(
                channel_wire(c),
                channel_config_wire(x),
                channel_wire(d),
                channel_config_wire(y),
            );
            lemma_channel_config_injective(x, y);
            assert(channel_wire(c)[0] == channel_wire(d)[0]);
        },
        Request::ServoFrequency(x) => {
            lemma_le32_injective(x, b->ServoFrequency_0);
        },
        Request::StepperSet(x) => {
            lemma_le32_injective(x, b->StepperSet_0);
        },
        Request::PingX2(x) => {
            lemma_le32_injective(x, b->PingX2_0);
        },
        _ => {},
    }
}

/// No two responses of one endpoint have the same payload: what a payload
/// is read as is the response that was written.
pub proof fn lemma_response_wire_injective(endpoint: Endpoint, a: Response, b: Response)
    requires
        a.answers(endpoint),
        b.answers(endpoint),
        a.wire() == b.wire(),
    ensures
        a == b,
{
    match a {
        Response::Unit => {
            assert(b is Unit);
        },
        Response::UniqueId(x) => {
            let y = b->UniqueId_0;
            assert(b is UniqueId);
            assert(x@ == y@);
            assert(x =~= y);
        },
        Response::Adc(x) => {
            assert(b is Adc);
            lemma_le16_injective(x, b->Adc_0);
        },
        Response::Pidvals(x) => {
            assert(b is Pidvals);
            lemma_pidvals_injective(x, b->Pidvals_0);
        },
        Response::Angle(x) => {
            assert(b is Angle);
            assert(a.wire()[0] == x && b.wire()[0] == b->Angle_0);
        },
        Response::ServoConfig(x) => {
            assert(b is ServoConfig);
            lemma_servo_config_injective(x, b->ServoConfig_0);
        },
        Response::Stopped(x) => {
            let y = b->Stopped_0;
            assert(b is Stopped);
            assert(flag_wire(x)[0] == flag_wire(y)[0]);
        },
        Response::Pong(x) => {
            assert(b is Pong);
            lemma_le32_injective(x, b->Pong_0);
        },
    }
}

/// Setting the heater's duty by hand never touches the controller: a read
/// of the controller's state after it reports the state from before it.
pub proof fn lemma_set_pwm_leaves_controller(
    s: State,
    duty: u16,
    first: Inputs,
    mid: State,
    r1: Reply,
    e1: Effect,
    second: Inputs,
    end: State,
    r2: Reply,
    e2: Effect,
)
    requires
        s.steps_to(Request::HeaterSetPwm(duty), first, mid, r1, e1),
        mid.steps_to(Request::PidGet, second, end, r2, e2),
    ensures
        mid.heater.pidvals == s.heater.pidvals,
        r2 == Reply::Response(Response::Pidvals(s.heater.pidvals)),
        end == mid,
{
}

/// A configured channel is what a read of the configuration reports for
/// it, and the other channels are reported as they were.
pub proof fn lemma_channel_is_echoed(
    s: State,
    channel: PwmChannel,
    config: ServoChannelConfig,
    first: Inputs,
    mid: State,
    r1: Reply,
    e1: Effect,
    second: Inputs,
    end: State,
    r2: Reply,
    e2: Effect,
)
    requires
        s.steps_to(Request::ServoChannel(channel, config), first, mid, r1, e1),
        mid.steps_to(Request::ServoConfig, second, end, r2, e2),
    ensures
        r2 matches Reply::Response(Response::ServoConfig(echo)) && echo.channels@[channel.spec_index()]
            == config && forall|i: int|
            0 <= i < 4 && i != channel.spec_index() ==> echo.channels@[i]
                == s.servo.config.channels@[i],
{
}

/// After a change of the frequency every channel is switched off, whatever
/// the channels were before and whatever the frequency asked for.
pub proof fn lemma_frequency_disables_all(
    s: State,
    frequency: u32,
    inputs: Inputs,
    post: State,
    reply: Reply,
    effect: Effect,
)
    requires
        s.steps_to(Request::ServoFrequency(frequency), inputs, post, reply, effect),
    ensures
        forall|i: int| 0 <= i < 4 ==> !(#[trigger] post.servo.config.channels@[i]).enabled,
        reply == Reply::Response(Response::Unit),
{
    assert forall|i: int| 0 <= i < 4 implies !(#[trigger] post.servo.config.channels@[i]).enabled by {
        assert(post.servo.config.channels@[i] == s.servo.config.channels@[i].disabled());
    }
}

/// A request to set an angle on a channel number other than 1 to 4 is
/// answered with the invalid channel and changes nothing.
pub proof fn lemma_bad_channel_changes_nothing(
    s: State,
    number: u8,
    angle: u8,
    inputs: Inputs,
    post: State,
    reply: Reply,
    effect: Effect,
)
    requires
        !(1 <= number <= 4),
        s.steps_to(Request::ServoSetAngle(number, angle), inputs, post, reply, effect),
    ensures
        post == s,
        reply == Reply::Error(WireError::Invalid(InvalidArgument::Channel(number))),
        effect == Effect::Nothing,
{
}

/// A stop request that finds no log stream running answers `false` and
/// changes nothing. One that finds a stream running answers `true`, and
/// the stream has ended after the next tick, whatever is pending then.
pub proof fn lemma_stop_reports_and_ends(
    s: State,
    inputs: Inputs,
    post: State,
    reply: Reply,
    effect: Effect,
    available: int,
)
    requires
        s.steps_to(Request::DefmtStop, inputs, post, reply, effect),
    ensures
        reply == Reply::Response(Response::Stopped(s.log.active)),
        !s.log.active ==> post == s,
        s.log.active ==> !post.log.spec_tick(available).active,
{
}

/// Only the pulse train keeps its answer back: every request to an
/// endpoint whose handler runs to completion is answered in the serve step
/// that takes it.
pub proof fn lemma_blocking_answers_at_once(
    s: State,
    request: Request,
    inputs: Inputs,
    post: State,
    reply: Reply,
    effect: Effect,
)
    requires
        s.steps_to(request, inputs, post, reply, effect),
    ensures
        request.spec_endpoint().spec_kind() == HandlerKind::Blocking ==> !(reply is Deferred),
        reply is Deferred ==> request is StepperSet && post.stepper.running,
{
}

/// A ping is answered with twice its value.
pub proof fn lemma_ping_doubles(
    s: State,
    value: u32,
    inputs: Inputs,
    post: State,
    reply: Reply,
    effect: Effect,
)
    requires
        value <= 0x7fff_ffff,
        s.steps_to(Request::PingX2(value), inputs, post, reply, effect),
    ensures
        reply == Reply::Response(Response::Pong((2 * value) as u32)),
        post == s,
{
}

/// A pulse train of `steps` steps sends exactly `steps` pulses, one per
/// tick, and the tick after the last pulse leaves the channel switched off.
pub proof fn lemma_train_runs_to_completion(c: stepper::Context, k: nat)
    requires
        c.running,
        k <= c.remaining,
    ensures
        stepper::after_ticks(c, k) == c.after_pulses(k as int),
        k < c.remaining ==> stepper::spec_tick(stepper::after_ticks(c, k)).1 == (StepperAction::Pulse {
            duty_cycle: c.pulse_duty,
        }),
        k == c.remaining ==> stepper::spec_tick(stepper::after_ticks(c, k)).1 == StepperAction::Finish
            && !stepper::after_ticks(c, k + 1).enabled && !stepper::after_ticks(c, k + 1).running,
    decreases k,
{
    reveal_with_fuel(stepper::after_ticks, 2);
    if k > 0 {
        lemma_train_runs_to_completion(c, (k - 1) as nat);
    }
}

} // verus!
