//! The command layer: one open UPS connection, and one method per logical
//! command. Every method runs the same way — look the command up in the
//! table, issue the descriptor read, decode the payload — so what the
//! device answers is nondeterministic, but everything the library does
//! with the answer is pinned down.

use vstd::prelude::*;
use crate::codec::Command;
use crate::codec::decode_descriptor_payload;
use crate::codec::decoded_text;
use crate::codec::descriptor_plan;
use crate::codec::spec_plan;
use crate::error::UpsError;
use crate::status::UpsStatus;
use crate::status::parsed_from;
use crate::status::status_wf;
use crate::transport;

verus! {

/// One exclusively-owned connection to a Megatec UPS device. Opened by
/// vendor/product identifier; the underlying USB resources are released
/// when the value is dropped.
pub struct MegatecUps {
    handle: transport::UsbHandle,
    #[allow(dead_code)]
    context: rusb::Context,
}

impl MegatecUps {
    /// Open the first USB device matching `vendor_id` and `product_id`.
    /// A missing device is reported as `InvalidResponse`, a transport
    /// failure verbatim; a time error cannot arise here.
    pub fn new(vendor_id: u16, product_id: u16) -> (r: Result<Self, UpsError>)
        ensures
            r matches Err(e) ==> !(e matches UpsError::InvalidTime),
    {
        let context = match transport::usb_context_new() {
            Ok(c) => c,
            Err(e) => {
                return Err(UpsError::Usb(e));
            },
        };
        let handle = match transport::open_device(&context, vendor_id, product_id) {
            Some(h) => h,
            None => {
                return Err(UpsError::InvalidResponse);
            },
        };
        Ok(MegatecUps { handle, context })
    }

    /// Run one command against the device: look it up in the command
    /// table, issue the descriptor read, decode the payload. Whatever the
    /// device answered, the returned text is the decoding of a raw
    /// response of at least three bytes and at most the plan's length;
    /// `InvalidTime` comes exactly when the command has no plan.
    fn run_command(&self, cmd: &Command) -> (r: Result<String, UpsError>)
        ensures
            match r {
                Ok(s) => ({
                    &&& spec_plan(*cmd) matches Some(p)
                    &&& exists|raw: Seq<u8>|
                        #![auto]
                        3 <= raw.len() <= p.max_length && s@ == decoded_text(raw)
                }),
                Err(e) => match e {
                    UpsError::InvalidTime => spec_plan(*cmd) is None,
                    _ => spec_plan(*cmd) is Some,
                },
            },
    {
        let plan = match descriptor_plan(cmd) {
            Ok(p) => p,
            Err(e) => {
                return Err(e);
            },
        };
        let raw = match transport::read_string_descriptor_raw(
            &self.handle,
            plan.index,
            plan.max_length,
        ) {
            Ok(raw) => raw,
            Err(e) => {
                return Err(UpsError::Usb(e));
            },
        };
        match decode_descriptor_payload(&raw) {
            Ok(s) => {
                proof {
                    assert(3 <= raw@.len() <= plan.max_length && s@ == decoded_text(raw@));
                }
                Ok(s)
            },
            Err(e) => Err(e),
        }
    }

    /// Get the UPS name: the decoded payload of descriptor 2.
    pub fn get_name(&self) -> (r: Result<String, UpsError>)
        ensures
            r matches Ok(s) ==> exists|raw: Seq<u8>|
                #![auto]
                3 <= raw.len() <= 256 && s@ == decoded_text(raw),
            r matches Err(e) ==> !(e matches UpsError::InvalidTime),
    {
        self.run_command(&Command::GetName)
    }

    /// Get the UPS status with the acknowledgment handshake: one status
    /// read primes the device and its result is discarded, then after a
    /// fixed one-second pause a second read fetches the settled status,
    /// which is parsed. Any status handed out is a well-formed seven-field
    /// record.
    pub fn get_status(&self) -> (r: Result<UpsStatus, UpsError>)
        ensures
            r matches Ok(st) ==> status_wf(st) && (exists|line: Seq<char>|
                #[trigger] parsed_from(line, st)),
            r matches Err(e) ==> !(e matches UpsError::InvalidTime),
    {
        let _ack = match self.run_command(&Command::GetStatus) {
            Ok(s) => s,
            Err(e) => {
                return Err(e);
            },
        };
        transport::pause_one_second();
        let text = match self.run_command(&Command::GetStatus) {
            Ok(s) => s,
            Err(e) => {
                return Err(e);
            },
        };
        UpsStatus::from_str(text.as_str())
    }

    /// Get the UPS status from a single read, without the handshake:
    /// lower latency, possibly stale data.
    pub fn get_status_no_ack(&self) -> (r: Result<UpsStatus, UpsError>)
        ensures
            r matches Ok(st) ==> status_wf(st) && (exists|line: Seq<char>|
                #[trigger] parsed_from(line, st)),
            r matches Err(e) ==> !(e matches UpsError::InvalidTime),
    {
        let text = match self.run_command(&Command::GetStatusNoAck) {
            Ok(s) => s,
            Err(e) => {
                return Err(e);
            },
        };
        UpsStatus::from_str(text.as_str())
    }

    /// Run a ten-second self-test.
    pub fn test(&self) -> (r: Result<(), UpsError>)
        ensures
            r matches Err(e) ==> !(e matches UpsError::InvalidTime),
    {
        match self.run_command(&Command::Test) {
            Ok(_) => Ok(()),
            Err(e) => Err(e),
        }
    }

    /// Run a self-test until the battery is low.
    pub fn test_until_battery_low(&self) -> (r: Result<(), UpsError>)
        ensures
            r matches Err(e) ==> !(e matches UpsError::InvalidTime),
    {
        match self.run_command(&Command::TestUntilBatteryLow) {
            Ok(_) => Ok(()),
            Err(e) => Err(e),
        }
    }

    /// Run a self-test for the given number of minutes. The duration is
    /// encoded as the descriptor-length parameter of the read; a duration
    /// outside 1..=99 fails with `InvalidTime`, and `InvalidTime` comes
    /// only then.
    pub fn test_with_time(&self, minutes: u8) -> (r: Result<(), UpsError>)
        ensures
            !(1 <= minutes <= 99) ==> (r matches Err(e) && e matches UpsError::InvalidTime),
            1 <= minutes <= 99 ==> (r matches Err(e) ==> !(e matches UpsError::InvalidTime)),
    {
        match self.run_command(&Command::TestWithTime(minutes)) {
            Ok(_) => Ok(()),
            Err(e) => Err(e),
        }
    }

    /// Toggle the UPS beeper.
    pub fn switch_beep(&self) -> (r: Result<(), UpsError>)
        ensures
            r matches Err(e) ==> !(e matches UpsError::InvalidTime),
    {
        match self.run_command(&Command::SwitchBeep) {
            Ok(_) => Ok(()),
            Err(e) => Err(e),
        }
    }

    /// Abort a running self-test.
    pub fn abort_test(&self) -> (r: Result<(), UpsError>)
        ensures
            r matches Err(e) ==> !(e matches UpsError::InvalidTime),
    {
        match self.run_command(&Command::AbortTest) {
            Ok(_) => Ok(()),
            Err(e) => Err(e),
        }
    }

    /// Get the UPS rating information: the decoded payload of
    /// descriptor 13.
    pub fn get_rating(&self) -> (r: Result<String, UpsError>)
        ensures
            r matches Ok(s) ==> exists|raw: Seq<u8>|
                #![auto]
                3 <= raw.len() <= 256 && s@ == decoded_text(raw),
            r matches Err(e) ==> !(e matches UpsError::InvalidTime),
    {
        self.run_command(&Command::GetRating)
    }

    /// Shut the UPS down after one minute. This is the one command whose
    /// descriptor response is a long combined acknowledgment blob, hence
    /// its larger length parameter.
    pub fn shutdown(&self) -> (r: Result<(), UpsError>)
        ensures
            r matches Err(e) ==> !(e matches UpsError::InvalidTime),
    {
        match self.run_command(&Command::Shutdown) {
            Ok(_) => Ok(()),
            Err(e) => Err(e),
        }
    }
}

} // verus!
