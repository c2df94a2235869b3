//! The protocol codec: which descriptor index and length each logical command
//! uses, which payload bytes count as protocol text, and how a test duration
//! in minutes is encoded as the descriptor-length parameter.

use vstd::prelude::*;
use crate::error::UpsError;

verus! {

/// True iff `c` is kept by the protocol's printable-character filter:
/// printable ASCII (32..=126), excluding double-quote (34), open
/// parenthesis (40) and backtick (96), which the device intermixes as noise.
pub open spec fn spec_is_valid_char(c: u8) -> bool {
    32 <= c && c <= 126 && c != 34 && c != 96 && c != 40
}

/// The protocol time code for a test duration of `minutes`, defined for
/// 1..=99. The mapping is piecewise and deliberately irregular: it mirrors
/// the device firmware's encoding and must be kept bit-for-bit.
pub open spec fn time_code(minutes: int) -> int {
    if minutes <= 9 {
        100 + minutes
    } else if minutes <= 19 {
        125 + (minutes - 19)
    } else {
        132 + (minutes - ((minutes - 20) / 10 * 10 + 20)) * 7
    }
}

/// For one to nine minutes the time code is one hundred plus the minutes.
pub proof fn lemma_time_code_units(minutes: int)
    requires
        1 <= minutes <= 9,
    ensures
        time_code(minutes) == 100 + minutes,
{
}

/// For ten to nineteen minutes the time code is 125 + (minutes - 19): the
/// code shrinks as the minutes grow within this band.
pub proof fn lemma_time_code_teens(minutes: int)
    requires
        10 <= minutes <= 19,
    ensures
        time_code(minutes) == 125 + (minutes - 19),
{
}

/// For twenty to ninety-nine minutes the time code is 132 plus seven for
/// each minute past the ten-minute boundary at or below the duration.
pub proof fn lemma_time_code_tens(minutes: int)
    requires
        20 <= minutes <= 99,
    ensures
        time_code(minutes) == 132 + (minutes - ((minutes - 20) / 10 * 10 + 20)) * 7,
{
}

/// Every defined time code lies in 101..=195, so it always fits the 16-bit
/// descriptor-length parameter it is sent as.
pub proof fn lemma_time_code_range(minutes: int)
    requires
        1 <= minutes <= 99,
    ensures
        101 <= time_code(minutes) <= 195,
{
    if 20 <= minutes {
        let start = (minutes - 20) / 10 * 10 + 20;
        assert(start <= minutes < start + 10) by (nonlinear_arith)
            requires 20 <= minutes <= 99, start == (minutes - 20) / 10 * 10 + 20;
    }
}

/// True iff `c` is kept by the printable-character filter.
pub fn is_valid_char(c: u8) -> (r: bool)
    ensures
        r == spec_is_valid_char(c),
{
    c >= 32 && c <= 126 && c != 34 && c != 96 && c != 40
}

/// The protocol time code for a test duration of `minutes`: `Ok` with the
/// code exactly for durations of 1..=99 minutes, `Err(InvalidTime)` for 0
/// and for anything above 99.
pub fn calculate_time(minutes: u8) -> (r: Result<u16, UpsError>)
    ensures
        1 <= minutes <= 99 ==> (r matches Ok(code) && code == time_code(minutes as int)),
        !(1 <= minutes <= 99) ==> (r matches Err(e) && e matches UpsError::InvalidTime),
{
    if minutes == 0 || minutes > 99 {
        return Err(UpsError::InvalidTime);
    }
    let m = minutes as u16;
    let value: u16 = if m <= 9 {
        100 + m
    } else if m <= 19 {
        // 125 + (m - 19), written so the subtraction cannot underflow
        106 + m
    } else {
        let range_start = (m - 20) / 10 * 10 + 20;
        proof {
            let mm = minutes as int;
            assert((mm - 20) / 10 * 10 <= mm - 20 < (mm - 20) / 10 * 10 + 10)
                by (nonlinear_arith)
                requires 20 <= mm <= 99;
        }
        132 + (m - range_start) * 7
    };
    Ok(value)
}

/// A logical operation on the UPS.
#[derive(Clone, Copy, Debug, PartialEq, Eq, Structural)]
pub enum Command {
    GetName,
    GetStatus,
    GetStatusNoAck,
    Test,
    TestUntilBatteryLow,
    TestWithTime(u8),
    SwitchBeep,
    AbortTest,
    GetRating,
    Shutdown,
}

/// Which string descriptor a command reads, and the 16-bit length parameter
/// sent with the request. For the timed self-test the length parameter is
/// not a buffer bound at all: it carries the encoded duration.
#[derive(Clone, Copy, Debug, PartialEq, Eq, Structural)]
pub struct DescriptorPlan {
    pub index: u8,
    pub max_length: u16,
}

/// The command table: descriptor index and length parameter for each
/// command, or `None` when the carried duration has no time code.
pub open spec fn spec_plan(cmd: Command) -> Option<DescriptorPlan> {
    match cmd {
        Command::GetName => Some(DescriptorPlan { index: 2, max_length: 256 }),
        Command::GetStatus => Some(DescriptorPlan { index: 3, max_length: 256 }),
        Command::GetStatusNoAck => Some(DescriptorPlan { index: 3, max_length: 256 }),
        Command::Test => Some(DescriptorPlan { index: 4, max_length: 256 }),
        Command::TestUntilBatteryLow => Some(DescriptorPlan { index: 5, max_length: 256 }),
        Command::TestWithTime(m) => if 1 <= m && m <= 99 {
            Some(DescriptorPlan { index: 6, max_length: time_code(m as int) as u16 })
        } else {
            None
        },
        Command::SwitchBeep => Some(DescriptorPlan { index: 7, max_length: 256 }),
        Command::AbortTest => Some(DescriptorPlan { index: 11, max_length: 256 }),
        Command::GetRating => Some(DescriptorPlan { index: 13, max_length: 256 }),
        Command::Shutdown => Some(DescriptorPlan { index: 105, max_length: 2460 }),
    }
}

/// Look a command up in the command table. Fails, with `InvalidTime` only,
/// exactly when the command carries a duration outside 1..=99 minutes.
pub fn descriptor_plan(cmd: &Command) -> (r: Result<DescriptorPlan, UpsError>)
    ensures
        match r {
            Ok(p) => spec_plan(*cmd) == Some(p),
            Err(e) => spec_plan(*cmd) is None && e matches UpsError::InvalidTime,
        },
{
    match cmd {
        Command::GetName => Ok(DescriptorPlan { index: 2, max_length: 256 }),
        Command::GetStatus => Ok(DescriptorPlan { index: 3, max_length: 256 }),
        Command::GetStatusNoAck => Ok(DescriptorPlan { index: 3, max_length: 256 }),
        Command::Test => Ok(DescriptorPlan { index: 4, max_length: 256 }),
        Command::TestUntilBatteryLow => Ok(DescriptorPlan { index: 5, max_length: 256 }),
        Command::TestWithTime(m) => match calculate_time(*m) {
            Ok(code) => {
                proof {
                    lemma_time_code_range(*m as int);
                }
                Ok(DescriptorPlan { index: 6, max_length: code })
            },
            Err(e) => Err(e),
        },
        Command::SwitchBeep => Ok(DescriptorPlan { index: 7, max_length: 256 }),
        Command::AbortTest => Ok(DescriptorPlan { index: 11, max_length: 256 }),
        Command::GetRating => Ok(DescriptorPlan { index: 13, max_length: 256 }),
        Command::Shutdown => Ok(DescriptorPlan { index: 105, max_length: 2460 }),
    }
}

/// The characters that survive filtering `s`, in order: each kept byte maps
/// one-to-one to its ASCII character, dropped bytes leave no trace.
pub open spec fn filtered_chars(s: Seq<u8>) -> Seq<char>
    decreases s.len(),
{
    if s.len() == 0 {
        Seq::empty()
    } else if spec_is_valid_char(s.last()) {
        filtered_chars(s.drop_last()).push(s.last() as char)
    } else {
        filtered_chars(s.drop_last())
    }
}

/// The protocol text carried by a raw descriptor response: the two
/// descriptor-header bytes are not candidate text, the rest is filtered.
pub open spec fn decoded_text(raw: Seq<u8>) -> Seq<char> {
    filtered_chars(raw.skip(2))
}

/// Relies on String::from_utf8: a sequence of bytes below 128 is valid
/// UTF-8 and decodes one byte to one character, each the byte's own code.
#[verifier::external_body]
fn ascii_to_string(bytes: Vec<u8>) -> (r: String)
    requires
        forall|i: int| 0 <= i < bytes@.len() ==> bytes@[i] < 128,
    ensures
        r@.len() == bytes@.len(),
        forall|i: int| 0 <= i < r@.len() ==> r@[i] == bytes@[i] as char,
{
    match String::from_utf8(bytes) {
        Ok(s) => s,
        Err(_) => String::new(),
    }
}

/// Decode a raw descriptor response into protocol text. A response of
/// fewer than three bytes signals "no real payload" and always fails with
/// `InvalidResponse`, whatever its content; otherwise the text is the
/// filtered remainder after the two descriptor-header bytes.
pub fn decode_descriptor_payload(raw: &Vec<u8>) -> (r: Result<String, UpsError>)
    ensures
        match r {
            Ok(s) => raw@.len() >= 3 && s@ == decoded_text(raw@),
            Err(e) => raw@.len() < 3 && e matches UpsError::InvalidResponse,
        },
{
    if raw.len() < 3 {
        return Err(UpsError::InvalidResponse);
    }
    let mut kept: Vec<u8> = Vec::new();
    let mut i: usize = 2;
    while i < raw.len()
        invariant
            2 <= i <= raw@.len(),
            kept@.map_values(|b: u8| b as char) == filtered_chars(raw@.subrange(2, i as int)),
            forall|j: int| 0 <= j < kept@.len() ==> kept@[j] < 128,
        decreases raw@.len() - i,
    {
        let ghost prev = kept@;
        let b = raw[i];
        if is_valid_char(b) {
            kept.push(b);
        }
        proof {
            let s1 = raw@.subrange(2, i + 1);
            assert(s1.drop_last() =~= raw@.subrange(2, i as int));
            assert(s1.last() == raw@[i as int]);
            if spec_is_valid_char(b) {
                assert(kept@.map_values(|x: u8| x as char)
                    =~= prev.map_values(|x: u8| x as char).push(b as char));
            }
        }
        i += 1;
    }
    proof {
        assert(raw@.subrange(2, raw@.len() as int) =~= raw@.skip(2));
    }
    let text = ascii_to_string(kept);
    proof {
        assert(text@ =~= decoded_text(raw@));
    }
    Ok(text)
}

} // verus!
