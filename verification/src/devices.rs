//! Device enumeration.

use vstd::prelude::*;

verus! {

/// An audio device as shown to the user.
#[derive(Debug, PartialEq, Eq)]
pub struct AudioDeviceInfo {
    pub id: String,
    pub name: String,
}

/// The infos stand for the listed pairs of identifier and name, in their order.
pub open spec fn describes(infos: Seq<AudioDeviceInfo>, listed: Seq<(String, String)>) -> bool {
    &&& infos.len() == listed.len()
    &&& forall|k: int|
        #![trigger infos[k]]
        #![trigger listed[k]]
        0 <= k < listed.len() ==> infos[k].id@ == listed[k].0@ && infos[k].name@ == listed[k].1@
}

/// One info for each listed device, or none where the listing failed.
pub open spec fn describes_listing(
    infos: Seq<AudioDeviceInfo>,
    listing: Result<Vec<(String, String)>, String>,
) -> bool {
    match listing {
        Ok(devices) => describes(infos, devices@),
        Err(_) => infos.len() == 0,
    }
}

fn describe(listing: Result<Vec<(String, String)>, String>) -> (infos: Vec<AudioDeviceInfo>)
    ensures
        describes_listing(infos@, listing),
        match listing {
            Ok(devices) => {
                &&& infos@.len() == devices@.len()
                &&& forall|k: int|
                    #![trigger infos@[k]]
                    #![trigger devices@[k]]
                    0 <= k < devices@.len() ==> infos@[k].id@ == devices@[k].0@
                        && infos@[k].name@ == devices@[k].1@
            },
            Err(_) => infos@.len() == 0,
        },
{
    let mut infos: Vec<AudioDeviceInfo> = Vec::new();
    match listing {
        Ok(devices) => {
            for device in iter: devices
                invariant
                    iter.seq() == devices@,
                    infos@.len() == iter.index(),
                    forall|k: int|
                        #![trigger infos@[k]]
                        #![trigger devices@[k]]
                        0 <= k < infos@.len() ==> infos@[k].id@ == devices@[k].0@
                            && infos@[k].name@ == devices@[k].1@,
            {
                let (id, name) = device;
                infos.push(AudioDeviceInfo { id, name });
            }
        },
        Err(_) => {},
    }
    infos
}

/// The input devices, from what the microphone backend listed.
pub fn get_input_devices(listing: Result<Vec<(String, String)>, String>) -> (infos: Vec<
    AudioDeviceInfo,
>)
    ensures
        describes_listing(infos@, listing),
        match listing {
            Ok(devices) => {
                &&& infos@.len() == devices@.len()
                &&& forall|k: int|
                    #![trigger infos@[k]]
                    #![trigger devices@[k]]
                    0 <= k < devices@.len() ==> infos@[k].id@ == devices@[k].0@
                        && infos@[k].name@ == devices@[k].1@
            },
            Err(_) => infos@.len() == 0,
        },
{
    describe(listing)
}

/// The output devices, from what the speaker backend listed.
pub fn get_output_devices(listing: Result<Vec<(String, String)>, String>) -> (infos: Vec<
    AudioDeviceInfo,
>)
    ensures
        describes_listing(infos@, listing),
        match listing {
            Ok(devices) => {
                &&& infos@.len() == devices@.len()
                &&& forall|k: int|
                    #![trigger infos@[k]]
                    #![trigger devices@[k]]
                    0 <= k < devices@.len() ==> infos@[k].id@ == devices@[k].0@
                        && infos@[k].name@ == devices@[k].1@
            },
            Err(_) => infos@.len() == 0,
        },
{
    describe(listing)
}

/// Each listed device is shown once, at its place, under its own identifier and name,
/// however many are listed; a listing that failed shows none.
pub proof fn every_device_is_shown(
    infos: Seq<AudioDeviceInfo>,
    listing: Result<Vec<(String, String)>, String>,
    k: int,
)
    requires
        describes_listing(infos, listing),
    ensures
        match listing {
            Ok(devices) => {
                &&& infos.len() == devices@.len()
                &&& 0 <= k < devices@.len() ==> infos[k].id@ == devices@[k].0@ && infos[k].name@
                    == devices@[k].1@
            },
            Err(_) => infos.len() == 0,
        },
{
}

} // verus!
