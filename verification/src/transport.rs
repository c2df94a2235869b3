//! The descriptor transport: trusted declarations of the `rusb` types the
//! library holds, and trusted wrappers around the few calls it makes. The
//! Megatec protocol piggy-backs its text payloads on USB string-descriptor
//! reads, so the whole transport is one kind of control request.

use vstd::prelude::*;
use rusb::UsbContext;

verus! {

#[verifier::external_type_specification]
#[verifier::external_body]
pub struct ExContext(rusb::Context);

/// Holds the open `rusb` device handle. `rusb::DeviceHandle` is generic over
/// an outside trait, which Verus refuses to declare, so the handle lives in
/// this opaque struct instead and the wrappers below take it whole.
#[verifier::external_body]
pub struct UsbHandle {
    handle: rusb::DeviceHandle<rusb::Context>,
}

#[verifier::external_type_specification]
#[verifier::external_body]
pub struct ExUsbError(rusb::Error);

/// Relies on rusb::Context::new: initialises a fresh libusb context or
/// reports the transport's own error.
#[verifier::external_body]
pub(crate) fn usb_context_new() -> Result<rusb::Context, rusb::Error> {
    rusb::Context::new()
}

/// Relies on rusb::UsbContext::open_device_with_vid_pid: a handle to the
/// first device matching the pair, or `None` when none could be found or
/// opened. Which device (if any) answers depends on the machine, so nothing
/// more is stated.
#[verifier::external_body]
pub(crate) fn open_device(
    context: &rusb::Context,
    vendor_id: u16,
    product_id: u16,
) -> Option<UsbHandle> {
    let handle = context.open_device_with_vid_pid(vendor_id, product_id)?;
    Some(UsbHandle { handle })
}

/// Relies on rusb::DeviceHandle::read_control, issuing an inbound,
/// standard-recipient, device-scoped GET_DESCRIPTOR(STRING) request for the
/// given descriptor index with `wIndex` 0 and a one-second timeout. On
/// `Ok(n)` the buffer holds `n` received bytes with `n` at most the buffer's
/// length, so the returned prefix is never longer than `max_length`. Note
/// the protocol quirk: for the timed self-test command, `max_length` carries
/// an encoded duration, not a real buffer-size bound; it must be passed
/// through exactly as given.
#[verifier::external_body]
pub(crate) fn read_string_descriptor_raw(
    handle: &UsbHandle,
    index: u8,
    max_length: u16,
) -> (r: Result<Vec<u8>, rusb::Error>)
    ensures
        r matches Ok(raw) ==> raw@.len() <= max_length,
{
    let mut data = vec![0u8; max_length as usize];
    let rt = rusb::request_type(rusb::Direction::In, rusb::RequestType::Standard, rusb::Recipient::Device);
    let w_value = (rusb::constants::LIBUSB_DT_STRING as u16) << 8 | index as u16;
    let request = rusb::constants::LIBUSB_REQUEST_GET_DESCRIPTOR;
    let timeout = core::time::Duration::from_secs(1);
    match handle.handle.read_control(rt, request, w_value, 0, &mut data, timeout) {
        Ok(n) => {
            data.truncate(n);
            Ok(data)
        },
        Err(e) => Err(e),
    }
}

/// Relies on spin_sleep::sleep: blocks the calling thread for at least the
/// given duration. Used for the fixed one-second pause of the acknowledged
/// status handshake.
#[verifier::external_body]
pub(crate) fn pause_one_second() {
    spin_sleep::sleep(core::time::Duration::from_secs(1));
}

} // verus!
