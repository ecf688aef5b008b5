//! The decisions of the host's polling loop: what a tick and what a control
//! message ask for, and what the status bar shows.
use crate::event::{PowerUpdatedEvent, PreferenceEvent, StatusBarItem};
use crate::ffi::smc::SMCPowerData;
use crate::milli::Milli;
use vstd::prelude::*;

verus! {

/// The shortest time between two polls, in milliseconds. A shorter one would
/// overwhelm the channel to the controller.
pub const MIN_INTERVAL_MS: u64 = 500;

/// The time between two polls where no preference says otherwise.
pub const DEFAULT_INTERVAL_MS: u64 = 2000;

/// A control message to the polling loop.
#[derive(Debug, Clone, Copy, PartialEq, Eq, Structural)]
pub enum SenderMessage {
    /// Poll now.
    ImmediateSend,
    /// Poll at this interval from now on, in milliseconds.
    ChangeInterval(u64),
    /// Show this channel in the status bar.
    ChangeStatusBarItem(StatusBarItem),
    /// While charging, show what is delivered in place of the chosen channel,
    /// or do not.
    StatusBarShowCharging(bool),
}

/// The power that the status bar shows, to the nearest thousandth: what is
/// delivered while the battery charges and that is wanted, the chosen
/// channel otherwise.
pub open spec fn status_bar_power(smc: SMCPowerData, item: StatusBarItem, show_charging: bool) -> Milli {
    if smc.charging() && show_charging {
        smc.delivery_rate.milli()
    } else {
        match item {
            StatusBarItem::System => smc.system_total.milli(),
            StatusBarItem::Screen => smc.brightness.milli(),
            StatusBarItem::Heatpipe => smc.heatpipe.milli(),
        }
    }
}

/// The power that the status bar shows.
pub fn status_bar_text(smc: &SMCPowerData, status_bar_item: &StatusBarItem, show_charging: bool) -> (r: Milli)
    ensures
        r == status_bar_power(*smc, *status_bar_item, show_charging),
{
    if smc.is_charging() && show_charging {
        return smc.delivery_rate.to_milli();
    }
    match status_bar_item {
        StatusBarItem::System => smc.system_total.to_milli(),
        StatusBarItem::Screen => smc.brightness.to_milli(),
        StatusBarItem::Heatpipe => smc.heatpipe.to_milli(),
    }
}

/// The magnitude of a quantity in thousandths.
pub open spec fn thousandths_magnitude(v: Milli) -> nat {
    (if v.raw >= 0 {
        v.raw as int
    } else {
        -(v.raw as int)
    }) as nat
}

/// The tenths nearest to a number of thousandths, a tie going to the even
/// tenth.
pub open spec fn nearest_tenths(thousandths: nat) -> nat {
    let q = thousandths / 100;
    let r = thousandths % 100;
    if r > 50 || (r == 50 && q % 2 == 1) {
        q + 1
    } else {
        q
    }
}

/// The character of a decimal digit.
pub open spec fn digit(d: nat) -> char
    recommends
        d < 10,
{
    (('0' as u8) + d) as u8 as char
}

/// A natural number written in decimal.
pub open spec fn decimal(n: nat) -> Seq<char>
    decreases n,
{
    if n < 10 {
        seq![digit(n)]
    } else {
        decimal(n / 10).push(digit(n % 10))
    }
}

/// A power written for the status bar: its sign where it is below zero, its
/// whole part, a point, one decimal, a space and the unit.
pub open spec fn wattage(v: Milli) -> Seq<char> {
    let tenths = nearest_tenths(thousandths_magnitude(v));
    let sign = if v.raw < 0 {
        seq!['-']
    } else {
        Seq::<char>::empty()
    };
    sign + decimal(tenths / 10) + seq!['.'] + decimal(tenths % 10) + seq![' ', 'w']
}

/// The text of two numbers behind a sign, written by the standard
/// formatter: the sign as it stands, the first number in decimal, a point,
/// the second number in decimal, a space and `w`.
#[verifier::external_body]
fn format_wattage(sign: &str, whole: u64, tenth: u64) -> (r: String)
    ensures
        r@ == sign@ + decimal(whole as nat) + seq!['.'] + decimal(tenth as nat) + seq![' ', 'w'],
{
    format!("{}{}.{} w", sign, whole, tenth)
}

impl PowerUpdatedEvent {
    /// The event that shows a power with one decimal.
    pub fn new(value: Milli) -> (r: PowerUpdatedEvent)
        ensures
            r.0@ == wattage(value),
    {
        let wide: i128 = value.raw as i128;
        let magnitude: u64 = if wide < 0 {
            (-wide) as u64
        } else {
            wide as u64
        };
        let q: u64 = magnitude / 100;
        let rem: u64 = magnitude % 100;
        let tenths: u64 = if rem > 50 || (rem == 50 && q % 2 == 1) {
            q + 1
        } else {
            q
        };
        let text = if value.raw < 0 {
            proof {
                reveal_strlit("-");
                assert("-"@ =~= seq!['-']);
            }
            format_wattage("-", tenths / 10, tenths % 10)
        } else {
            proof {
                reveal_strlit("");
                assert(""@ =~= Seq::<char>::empty());
            }
            format_wattage("", tenths / 10, tenths % 10)
        };
        PowerUpdatedEvent(text)
    }

    /// The event that shows what the status bar is to show of a reading.
    pub fn new_with(smc: &SMCPowerData, status_bar_item: &StatusBarItem, show_charging: bool) -> (r:
        PowerUpdatedEvent)
        ensures
            r.0@ == wattage(status_bar_power(*smc, *status_bar_item, show_charging)),
    {
        PowerUpdatedEvent::new(status_bar_text(smc, status_bar_item, show_charging))
    }
}

/// The interval that a requested interval comes to: itself, or the shortest
/// one allowed where it is shorter.
pub open spec fn clamped_interval(requested: u64) -> u64 {
    if requested < MIN_INTERVAL_MS {
        MIN_INTERVAL_MS
    } else {
        requested
    }
}

/// What the loop is to do after an event.
#[derive(Debug, Clone, Copy, PartialEq, Eq, Structural)]
pub enum SenderAction {
    /// Read the sensors and the registry, and publish the status text and the
    /// reading.
    Publish,
    /// Read the sensors and publish the status text alone.
    PublishText,
    /// Start the timer anew with this interval, in milliseconds.
    Reschedule(u64),
}

/// What the polling loop remembers between events.
#[derive(Debug, Clone, Copy, PartialEq, Eq, Structural)]
pub struct Sender {
    pub interval_ms: u64,
    pub status_bar_item: StatusBarItem,
    pub show_charging: bool,
}

impl Sender {
    /// The state after a message: an interval is taken over, cut off at the
    /// shortest one allowed; a channel or the charging override is taken
    /// over as it stands; a request to poll changes nothing.
    pub open spec fn after(self, message: SenderMessage) -> Sender {
        match message {
            SenderMessage::ImmediateSend => self,
            SenderMessage::ChangeInterval(ms) => Sender { interval_ms: clamped_interval(ms), ..self },
            SenderMessage::ChangeStatusBarItem(item) => Sender { status_bar_item: item, ..self },
            SenderMessage::StatusBarShowCharging(show) => Sender { show_charging: show, ..self },
        }
    }

    /// What a message asks the loop to do.
    pub open spec fn action_for(self, message: SenderMessage) -> SenderAction {
        match message {
            SenderMessage::ImmediateSend => SenderAction::Publish,
            SenderMessage::ChangeInterval(ms) => SenderAction::Reschedule(clamped_interval(ms)),
            SenderMessage::ChangeStatusBarItem(_) => SenderAction::PublishText,
            SenderMessage::StatusBarShowCharging(_) => SenderAction::PublishText,
        }
    }

    /// The state at the start of the loop, from the stored preferences where
    /// there are any. A stored interval is cut off at the shortest one
    /// allowed, as any other interval that a caller supplies.
    pub fn new(
        update_interval: Option<u64>,
        status_bar_item: Option<StatusBarItem>,
        show_charging: Option<bool>,
    ) -> (r: Sender)
        ensures
            r.interval_ms == clamped_interval(
                match update_interval {
                    Some(ms) => ms,
                    None => DEFAULT_INTERVAL_MS,
                },
            ),
            r.interval_ms >= MIN_INTERVAL_MS,
            r.status_bar_item == (match status_bar_item {
                Some(item) => item,
                None => StatusBarItem::System,
            }),
            r.show_charging == (match show_charging {
                Some(show) => show,
                None => true,
            }),
    {
        let stored: u64 = match update_interval {
            Some(ms) => ms,
            None => DEFAULT_INTERVAL_MS,
        };
        Sender {
            interval_ms: if stored < MIN_INTERVAL_MS {
                MIN_INTERVAL_MS
            } else {
                stored
            },
            status_bar_item: match status_bar_item {
                Some(item) => item,
                None => StatusBarItem::System,
            },
            show_charging: match show_charging {
                Some(show) => show,
                None => true,
            },
        }
    }

    /// What a tick of the timer asks for: a poll. The state stays.
    pub fn on_tick(&self) -> (r: SenderAction)
        ensures
            r == SenderAction::Publish,
    {
        SenderAction::Publish
    }

    /// Takes a control message and says what the loop is to do.
    pub fn on_message(&mut self, message: SenderMessage) -> (r: SenderAction)
        ensures
            *final(self) == old(self).after(message),
            r == old(self).action_for(message),
            final(self).interval_ms >= MIN_INTERVAL_MS || final(self).interval_ms == old(
                self,
            ).interval_ms,
    {
        match message {
            SenderMessage::ImmediateSend => SenderAction::Publish,
            SenderMessage::ChangeInterval(ms) => {
                let interval = if ms < MIN_INTERVAL_MS {
                    MIN_INTERVAL_MS
                } else {
                    ms
                };
                self.interval_ms = interval;
                SenderAction::Reschedule(interval)
            },
            SenderMessage::ChangeStatusBarItem(item) => {
                self.status_bar_item = item;
                SenderAction::PublishText
            },
            SenderMessage::StatusBarShowCharging(show) => {
                self.show_charging = show;
                SenderAction::PublishText
            },
        }
    }

    /// The status text for a reading, under the channel and the override in
    /// force.
    pub fn status_text(&self, smc: &SMCPowerData) -> (r: PowerUpdatedEvent)
        ensures
            r.0@ == wattage(status_bar_power(*smc, self.status_bar_item, self.show_charging)),
    {
        PowerUpdatedEvent::new_with(smc, &self.status_bar_item, self.show_charging)
    }
}

/// The control message that a changed preference gives rise to, if any: the
/// interval, the status-bar channel and the charging override concern the
/// loop, the others do not.
pub open spec fn message_of(event: PreferenceEvent) -> Option<SenderMessage> {
    match event {
        PreferenceEvent::UpdateInterval(ms) => Some(SenderMessage::ChangeInterval(ms as u64)),
        PreferenceEvent::StatusBarItem(item) => Some(SenderMessage::ChangeStatusBarItem(item)),
        PreferenceEvent::StatusBarShowCharging(show) => Some(
            SenderMessage::StatusBarShowCharging(show),
        ),
        _ => None,
    }
}

/// The control message that a changed preference gives rise to, if any.
pub fn message_for(event: &PreferenceEvent) -> (r: Option<SenderMessage>)
    ensures
        r == message_of(*event),
{
    match event {
        PreferenceEvent::UpdateInterval(ms) => Some(SenderMessage::ChangeInterval(*ms as u64)),
        PreferenceEvent::StatusBarItem(item) => Some(SenderMessage::ChangeStatusBarItem(*item)),
        PreferenceEvent::StatusBarShowCharging(show) => Some(
            SenderMessage::StatusBarShowCharging(*show),
        ),
        _ => None,
    }
}

/// Whatever the messages, the loop never polls faster than the shortest
/// interval allowed once an interval has been set.
pub proof fn lemma_interval_never_below_minimum(state: Sender, message: SenderMessage)
    ensures
        message is ChangeInterval ==> state.after(message).interval_ms >= MIN_INTERVAL_MS,
        state.interval_ms >= MIN_INTERVAL_MS ==> state.after(message).interval_ms
            >= MIN_INTERVAL_MS,
        state.action_for(message) matches SenderAction::Reschedule(ms) ==> ms >= MIN_INTERVAL_MS
            && ms == state.after(message).interval_ms,
{
}

} // verus!
