//! Input devices: the listing shown to the user and the choice made at start.

use vstd::prelude::*;
use crate::error::RecorderError;

verus! {

/// One input device as shown to the user.
#[derive(Clone, Debug, PartialEq, Eq)]
pub struct InputDevice {
    pub name: String,
    pub is_default: bool,
}

/// An input device as a plain value.
pub struct DeviceView {
    pub name: Seq<char>,
    pub is_default: bool,
}

impl View for InputDevice {
    type V = DeviceView;

    open spec fn view(&self) -> DeviceView {
        DeviceView { name: self.name@, is_default: self.is_default }
    }
}

/// The name of the platform's default input device as a plain value; `None`
/// where the platform has no default device.
pub open spec fn default_view(default_name: Option<&str>) -> Option<Seq<char>> {
    match default_name {
        Some(name) => Some(name@),
        None => None,
    }
}

/// How one enumerated device appears in the listing: not at all if its name
/// could not be read, else under its name, flagged when there is a default
/// device and that is its name.
pub open spec fn listed(entry: Option<String>, default_name: Option<Seq<char>>) -> Option<
    DeviceView,
> {
    match entry {
        None => None,
        Some(name) => Some(DeviceView { name: name@, is_default: default_name == Some(name@) }),
    }
}

/// The listing of the enumerated devices, in enumeration order.
pub open spec fn listing(entries: Seq<Option<String>>, default_name: Option<Seq<char>>) -> Seq<
    DeviceView,
> {
    entries.filter_map(|entry: Option<String>| listed(entry, default_name))
}

/// The views of a vector of devices.
pub open spec fn views(devices: Seq<InputDevice>) -> Seq<DeviceView> {
    devices.map_values(|d: InputDevice| d@)
}

/// Lists the input devices. `entries` holds one entry per enumerated device,
/// `None` where the device's name could not be read; such a device is left
/// out and the others are still listed. `default_name` is the name of the
/// platform's default input device, `None` where there is none: then no
/// device is flagged.
pub fn list_input_devices(entries: &Vec<Option<String>>, default_name: Option<&str>) -> (devices:
    Vec<InputDevice>)
    ensures
        views(devices@) == listing(entries@, default_view(default_name)),
        forall|k: int|
            0 <= k < devices@.len() ==> (#[trigger] devices@[k]).is_default == (default_view(
                default_name,
            ) == Some(devices@[k].name@)),
{
    let mut devices: Vec<InputDevice> = Vec::new();
    let default_owned: Option<String> = match default_name {
        Some(name) => Some(name.to_owned()),
        None => None,
    };
    let ghost f = |entry: Option<String>| listed(entry, default_view(default_name));
    let mut i: usize = 0;
    while i < entries.len()
        invariant
            i <= entries@.len(),
            match default_owned {
                Some(owned) => default_view(default_name) == Some(owned@),
                None => default_view(default_name) is None,
            },
            f == |entry: Option<String>| listed(entry, default_view(default_name)),
            views(devices@) == entries@.take(i as int).filter_map(f),
            forall|k: int|
                0 <= k < devices@.len() ==> (#[trigger] devices@[k]).is_default == (default_view(
                    default_name,
                ) == Some(devices@[k].name@)),
        decreases entries@.len() - i,
    {
        let ghost before = devices@;
        proof {
            entries@.lemma_filter_map_take_succ(f, i as int);
        }
        match &entries[i] {
            None => {},
            Some(name) => {
                let is_default: bool = match &default_owned {
                    Some(owned) => *name == *owned,
                    None => false,
                };
                devices.push(InputDevice { name: name.clone(), is_default });
                assert(views(devices@) =~= views(before).push(f(entries@[i as int])->0));
            },
        }
        i = i + 1;
    }
    assert(entries@.take(entries@.len() as int) =~= entries@);
    devices
}

/// The device a recording is started on.
#[derive(Clone, Copy, Debug, PartialEq, Eq, Structural)]
pub enum DeviceChoice {
    /// The platform default, because no device was preferred.
    Default,
    /// The enumerated device at this position, whose name is the preferred one.
    Listed(usize),
    /// The platform default, because the preferred device is not among the
    /// enumerated ones. The caller warns about it.
    Fallback,
}

/// Whether the enumerated device at `i` carries the preferred name.
pub open spec fn names_it(entries: Seq<Option<String>>, preferred: Seq<char>, i: int) -> bool {
    &&& 0 <= i < entries.len()
    &&& entries[i] matches Some(name)
    &&& name@ == preferred
}

/// Whether `i` is the first enumerated device with the preferred name.
pub open spec fn first_named(entries: Seq<Option<String>>, preferred: Seq<char>, i: int) -> bool {
    names_it(entries, preferred, i) && forall|j: int| 0 <= j < i ==> !names_it(entries, preferred, j)
}

/// Whether any enumerated device carries the preferred name.
pub open spec fn known(entries: Seq<Option<String>>, preferred: Seq<char>) -> bool {
    exists|i: int| names_it(entries, preferred, i)
}

/// Chooses the capture device. An empty `preferred` means that the user
/// prefers none. A device whose name could not be read (`None`) matches no
/// preference.
pub fn resolve_device(preferred: &str, entries: &Vec<Option<String>>, has_default: bool) -> (r:
    Result<DeviceChoice, RecorderError>)
    ensures
        preferred@.len() == 0 && has_default ==> r == Ok::<DeviceChoice, RecorderError>(
            DeviceChoice::Default,
        ),
        preferred@.len() > 0 && known(entries@, preferred@) ==> (r matches Ok(
            DeviceChoice::Listed(i),
        ) && first_named(entries@, preferred@, i as int)),
        preferred@.len() > 0 && !known(entries@, preferred@) && has_default ==> r == Ok::<
            DeviceChoice,
            RecorderError,
        >(DeviceChoice::Fallback),
        !has_default && (preferred@.len() == 0 || !known(entries@, preferred@)) ==> r == Err::<
            DeviceChoice,
            RecorderError,
        >(RecorderError::NoInputDevice),
{
    if preferred.is_empty() {
        return if has_default {
            Ok(DeviceChoice::Default)
        } else {
            Err(RecorderError::NoInputDevice)
        };
    }
    let wanted: String = preferred.to_owned();
    let mut i: usize = 0;
    while i < entries.len()
        invariant
            i <= entries@.len(),
            wanted@ == preferred@,
            preferred@.len() > 0,
            forall|j: int| 0 <= j < i ==> !names_it(entries@, preferred@, j),
        decreases entries@.len() - i,
    {
        match &entries[i] {
            None => {},
            Some(name) => {
                if *name == wanted {
                    assert(names_it(entries@, preferred@, i as int));
                    return Ok(DeviceChoice::Listed(i));
                }
            },
        }
        i = i + 1;
    }
    if has_default {
        Ok(DeviceChoice::Fallback)
    } else {
        Err(RecorderError::NoInputDevice)
    }
}

} // verus!
