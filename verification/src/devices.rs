//! The list of input devices offered to the user, built from what the audio
//! host reports.

use vstd::prelude::*;
use crate::text::{decimal, push_decimal, str_eq};

verus! {

/// An input device as the tuner lists it.
#[derive(Debug)]
pub struct ClatuneDevice {
    pub id: String,
    pub name: String,
}

impl Clone for ClatuneDevice {
    fn clone(&self) -> (d: ClatuneDevice)
        ensures
            d == *self,
    {
        ClatuneDevice { id: self.id.clone(), name: self.name.clone() }
    }
}

impl Default for ClatuneDevice {
    fn default() -> (d: ClatuneDevice)
        ensures
            d.id@ == Seq::<char>::empty(),
            d.name@ == Seq::<char>::empty(),
    {
        ClatuneDevice { id: String::new(), name: String::new() }
    }
}

/// What the audio host reports of one input device: its description's name (or
/// the message of the error in reading it), its identifier (or the message of the
/// error in reading it), and its channel count when a default input
/// configuration is known.
#[derive(Debug)]
pub struct FoundDevice {
    pub name: Result<String, String>,
    pub id: Result<String, String>,
    pub channels: Option<u16>,
}

/// A listed device as plain text: its identifier and its shown name.
pub type DeviceText = (Seq<char>, Seq<char>);

/// The text of a listed device.
pub open spec fn device_text(d: ClatuneDevice) -> DeviceText {
    (d.id@, d.name@)
}

/// The text of each device of a list, in order.
pub open spec fn devices_text(ds: Seq<ClatuneDevice>) -> Seq<DeviceText> {
    ds.map_values(|d: ClatuneDevice| device_text(d))
}

/// What follows a device's name: its channel count as ` (2ch)`, when it is known.
pub open spec fn channels_suffix(channels: Option<u16>) -> Seq<char> {
    match channels {
        Some(n) => seq![' ', '('] + decimal(n as nat) + seq!['c', 'h', ')'],
        None => Seq::empty(),
    }
}

/// The name under which a device is shown.
pub open spec fn shown_name(name: Seq<char>, channels: Option<u16>) -> Seq<char> {
    name + channels_suffix(channels)
}

/// The description name that marks a device the host knows nothing of.
pub open spec fn unknown_name() -> Seq<char> {
    seq!['u', 'n', 'k', 'n', 'o', 'w', 'n']
}

/// Whether a reported device is offered: its description was read and is not
/// the unknown one.
pub open spec fn is_offered(d: FoundDevice) -> bool {
    d.name matches Ok(name) && name@ != unknown_name()
}

/// The devices offered among the first `n` reported ones, in order, or the
/// message of the first identifier that could not be read among them.
pub open spec fn offered_prefix(found: Seq<FoundDevice>, n: nat) -> Result<Seq<DeviceText>, Seq<char>>
    decreases n,
{
    if n == 0 {
        Ok(Seq::empty())
    } else {
        match offered_prefix(found, (n - 1) as nat) {
            Err(e) => Err(e),
            Ok(listed) => {
                let d = found[n - 1];
                if is_offered(d) {
                    match d.id {
                        Ok(id) => Ok(listed.push((id@, shown_name(d.name->Ok_0@, d.channels)))),
                        Err(e) => Err(e@),
                    }
                } else {
                    Ok(listed)
                }
            }
        }
    }
}

/// The message returned when no device is offered.
pub open spec fn no_devices_message() -> Seq<char> {
    "No input devices found"@
}

/// The device list and the default device, or the message of what went wrong:
/// the offered devices in the order reported; an error when an offered device's
/// identifier cannot be read or none is offered; the host's default input device
/// when it has one (an error when its description or identifier cannot be read),
/// and the first offered device when it has none.
pub open spec fn device_listing(found: Seq<FoundDevice>, host_default: Option<FoundDevice>)
    -> Result<(Seq<DeviceText>, DeviceText), Seq<char>>
{
    match offered_prefix(found, found.len()) {
        Err(e) => Err(e),
        Ok(listed) => if listed.len() == 0 {
            Err(no_devices_message())
        } else {
            match host_default {
                None => Ok((listed, listed[0])),
                Some(d) => match d.name {
                    Err(e) => Err(e@),
                    Ok(name) => match d.id {
                        Err(e) => Err(e@),
                        Ok(id) => Ok((listed, (id@, shown_name(name@, d.channels)))),
                    },
                },
            }
        },
    }
}

/// The text of a `get_devices` result.
pub open spec fn listing_text(r: Result<(Vec<ClatuneDevice>, ClatuneDevice), String>)
    -> Result<(Seq<DeviceText>, DeviceText), Seq<char>>
{
    match r {
        Ok((ds, d)) => Ok((devices_text(ds@), device_text(d))),
        Err(e) => Err(e@),
    }
}

/// Once an identifier fails to be read, the listing of every longer prefix fails
/// with the same message.
proof fn lemma_error_persists(found: Seq<FoundDevice>, n: nat, m: nat)
    requires
        n <= m,
        offered_prefix(found, n) is Err,
    ensures
        offered_prefix(found, m) == offered_prefix(found, n),
    decreases m - n,
{
    if n < m {
        lemma_error_persists(found, n, (m - 1) as nat);
    }
}

/// The name under which a device is shown: its description's name, followed by
/// its channel count when known.
fn name_with_channels(name: &String, channels: Option<u16>) -> (s: String)
    ensures
        s@ == shown_name(name@, channels),
{
    let mut s = name.clone();
    match channels {
        Some(n) => {
            proof {
                reveal_strlit(" (");
                reveal_strlit("ch)");
            }
            s.append(" (");
            push_decimal(&mut s, n as u64);
            s.append("ch)");
        },
        None => {},
    }
    assert(s@ =~= shown_name(name@, channels));
    s
}

/// Whether a description's name is the unknown one.
fn is_unknown(name: &String) -> (r: bool)
    ensures
        r == (name@ == unknown_name()),
{
    proof {
        reveal_strlit("unknown");
        assert("unknown"@ =~= unknown_name());
    }
    str_eq(name.as_str(), "unknown")
}

/// The input devices to offer and the default one, from what the host reports:
/// `found` lists its input devices in order, `host_default` its default input
/// device if it has one.
pub fn get_devices(found: &Vec<FoundDevice>, host_default: &Option<FoundDevice>)
    -> (r: Result<(Vec<ClatuneDevice>, ClatuneDevice), String>)
    ensures
        listing_text(r) == device_listing(found@, *host_default),
{
    let mut devices: Vec<ClatuneDevice> = Vec::new();
    assert(devices_text(devices@) =~= Seq::empty());
    let mut i: usize = 0;
    while i < found.len()
        invariant
            i <= found@.len(),
            offered_prefix(found@, i as nat) == Ok::<Seq<DeviceText>, Seq<char>>(devices_text(devices@)),
        decreases found@.len() - i,
    {
        let d = &found[i];
        let ghost before = devices@;
        match &d.name {
            Ok(name) => {
                if !is_unknown(name) {
                    match &d.id {
                        Ok(id) => {
                            devices.push(ClatuneDevice { id: id.clone(), name: name_with_channels(name, d.channels) });
                            assert(devices_text(devices@) =~= devices_text(before).push(device_text(devices@.last())));
                        },
                        Err(e) => {
                            proof { lemma_error_persists(found@, (i + 1) as nat, found@.len()); }
                            return Err(e.clone());
                        },
                    }
                }
            },
            Err(_) => {},
        }
        i = i + 1;
    }
    assert(found@.len() == i);
    if devices.len() == 0 {
        proof { reveal_strlit("No input devices found"); }
        return Err(String::from_str("No input devices found"));
    }
    let default_device = match host_default {
        Some(d) => {
            let name = match &d.name {
                Ok(name) => name,
                Err(e) => { return Err(e.clone()); },
            };
            let id = match &d.id {
                Ok(id) => id,
                Err(e) => { return Err(e.clone()); },
            };
            ClatuneDevice { id: id.clone(), name: name_with_channels(name, d.channels) }
        },
        None => devices[0].clone(),
    };
    Ok((devices, default_device))
}

/// A successful listing offers at least one device.
pub proof fn lemma_listing_not_empty(found: Seq<FoundDevice>, host_default: Option<FoundDevice>)
    requires
        device_listing(found, host_default) is Ok,
    ensures
        device_listing(found, host_default)->Ok_0.0.len() > 0,
{
}

/// Without a default device from the host, the first offered device is the
/// default one.
pub proof fn lemma_first_device_is_fallback_default(found: Seq<FoundDevice>)
    requires
        device_listing(found, None) is Ok,
    ensures
        device_listing(found, None)->Ok_0.1 == device_listing(found, None)->Ok_0.0[0],
{
}

/// The devices offered are the reported ones whose description could be read
/// and is not the unknown one: when there are none, the listing fails with the
/// message that no input device was found.
pub proof fn lemma_nothing_offered_is_an_error(found: Seq<FoundDevice>, host_default: Option<FoundDevice>)
    requires
        forall|i: int| 0 <= i < found.len() ==> !is_offered(#[trigger] found[i]),
    ensures
        device_listing(found, host_default) == Err::<(Seq<DeviceText>, DeviceText), Seq<char>>(no_devices_message()),
{
    lemma_nothing_offered_prefix(found, found.len());
}

proof fn lemma_nothing_offered_prefix(found: Seq<FoundDevice>, n: nat)
    requires
        n <= found.len(),
        forall|i: int| 0 <= i < found.len() ==> !is_offered(#[trigger] found[i]),
    ensures
        offered_prefix(found, n) == Ok::<Seq<DeviceText>, Seq<char>>(Seq::empty()),
    decreases n,
{
    if n > 0 {
        lemma_nothing_offered_prefix(found, (n - 1) as nat);
        assert(!is_offered(found[n - 1]));
    }
}

/// One readable device with an ordinary name is listed alone, under its name
/// followed by ` (Nch)` when its channel count `N` is known, and is the default
/// when the host names none.
pub proof fn lemma_single_device_listing(d: FoundDevice)
    requires
        d.name is Ok,
        d.id is Ok,
        d.name->Ok_0@ != unknown_name(),
    ensures
        ({
            let entry = (d.id->Ok_0@, match d.channels {
                Some(n) => d.name->Ok_0@ + " ("@ + decimal(n as nat) + "ch)"@,
                None => d.name->Ok_0@,
            });
            device_listing(seq![d], None) == Ok::<(Seq<DeviceText>, DeviceText), Seq<char>>((seq![entry], entry))
        }),
{
    reveal_strlit(" (");
    reveal_strlit("ch)");
    let found = seq![d];
    assert(offered_prefix(found, 0) == Ok::<Seq<DeviceText>, Seq<char>>(Seq::empty()));
    let entry = (d.id->Ok_0@, shown_name(d.name->Ok_0@, d.channels));
    assert(offered_prefix(found, 1) == Ok::<Seq<DeviceText>, Seq<char>>(Seq::<DeviceText>::empty().push(entry)));
    assert(Seq::<DeviceText>::empty().push(entry) =~= seq![entry]);
    match d.channels {
        Some(n) => {
            assert(shown_name(d.name->Ok_0@, d.channels) =~= d.name->Ok_0@ + " ("@ + decimal(n as nat) + "ch)"@);
        },
        None => {
            assert(shown_name(d.name->Ok_0@, d.channels) =~= d.name->Ok_0@);
        },
    }
}

/// A device whose description cannot be read, or reads as the unknown one, is
/// left out: adding it to the end of what the host reports changes nothing.
pub proof fn lemma_unoffered_device_left_out(found: Seq<FoundDevice>, d: FoundDevice, host_default: Option<FoundDevice>)
    requires
        d.name is Err || d.name->Ok_0@ == unknown_name(),
    ensures
        device_listing(found.push(d), host_default) == device_listing(found, host_default),
{
    let longer = found.push(d);
    assert(offered_prefix(longer, found.len()) == offered_prefix(found, found.len())) by {
        lemma_prefix_of_push(found, d, found.len());
    }
}

proof fn lemma_prefix_of_push(found: Seq<FoundDevice>, d: FoundDevice, n: nat)
    requires
        n <= found.len(),
    ensures
        offered_prefix(found.push(d), n) == offered_prefix(found, n),
    decreases n,
{
    if n > 0 {
        lemma_prefix_of_push(found, d, (n - 1) as nat);
        assert(found.push(d)[n - 1] == found[n - 1]);
    }
}

} // verus!
