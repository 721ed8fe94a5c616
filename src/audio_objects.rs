//! Hardware devices and the system root object: scope tests, names and
//! labels, enumeration, and the rules for changing a default device.
//!
//! Every property query is made by the caller; the functions here take what
//! a query handed back and decide what the operation returns.

use vstd::prelude::*;
use crate::property::{
    word_at, words_of, word_from_bytes, words_from_bytes, AddressScope, PropertyAddress,
    PropertyWrite, QueryError, Selector, ELEMENT_MASTER, HANDLE_SIZE,
};
use crate::string_wrapper;
use crate::string_wrapper::StringRef;

verus! {

/// Handle of no device.
pub const UNKNOWN_OBJECT: u32 = 0;

/// Handle of the system root object.
pub const SYSTEM_OBJECT: u32 = 1;

/// Byte width of one stream identifier in a device's stream list.
pub const STREAM_ID_SIZE: usize = 4;

/// Which half of a device's stream graph a query or mutation targets.
#[derive(Clone, Copy, Debug, PartialEq, Eq, Structural)]
pub enum Scope {
    Input,
    Output,
}

/// Why a device query or mutation failed.
#[derive(Clone, Copy, Debug, PartialEq, Eq, Structural)]
pub enum Error {
    /// A platform string could not be marshaled.
    ConversionFailed(string_wrapper::Error),
    /// The underlying query rejected the handle, the address or the size.
    InvalidParameters(QueryError),
    /// The default-device query named no device.
    NoDeviceFound,
    /// The device is already the default one.
    SetSameDevice,
    /// The device has no streams in the requested scope.
    WrongScope,
}

/// The address-level scope a device scope selects.
pub open spec fn spec_address_scope(scope: Scope) -> AddressScope {
    match scope {
        Scope::Input => AddressScope::Input,
        Scope::Output => AddressScope::Output,
    }
}

pub open spec fn spec_address(selector: Selector, scope: AddressScope) -> PropertyAddress {
    PropertyAddress { selector, scope, element: ELEMENT_MASTER }
}

fn address(selector: Selector, scope: AddressScope) -> (r: PropertyAddress)
    ensures
        r == spec_address(selector, scope),
{
    PropertyAddress { selector, scope, element: ELEMENT_MASTER }
}

fn address_scope(scope: &Scope) -> (r: AddressScope)
    ensures
        r == spec_address_scope(*scope),
{
    match scope {
        Scope::Input => AddressScope::Input,
        Scope::Output => AddressScope::Output,
    }
}

/// The global name of an object.
pub fn device_name_address() -> (r: PropertyAddress)
    ensures
        r == spec_address(Selector::ObjectName, AddressScope::Global),
{
    address(Selector::ObjectName, AddressScope::Global)
}

/// The global list of all devices.
pub fn devices_address() -> (r: PropertyAddress)
    ensures
        r == spec_address(Selector::Devices, AddressScope::Global),
{
    address(Selector::Devices, AddressScope::Global)
}

pub open spec fn spec_default_device_address(scope: Scope) -> PropertyAddress {
    match scope {
        Scope::Input => spec_address(Selector::DefaultInputDevice, AddressScope::Global),
        Scope::Output => spec_address(Selector::DefaultOutputDevice, AddressScope::Global),
    }
}

/// The default device of a scope, a global property of the system object.
pub fn default_device_address(scope: &Scope) -> (r: PropertyAddress)
    ensures
        r == spec_default_device_address(*scope),
{
    match scope {
        Scope::Input => address(Selector::DefaultInputDevice, AddressScope::Global),
        Scope::Output => address(Selector::DefaultOutputDevice, AddressScope::Global),
    }
}

/// A device's stream list in one scope.
pub fn streams_address(scope: &Scope) -> (r: PropertyAddress)
    ensures
        r == spec_address(Selector::Streams, spec_address_scope(*scope)),
{
    address(Selector::Streams, address_scope(scope))
}

/// A device's current data source in one scope.
pub fn source_address(scope: &Scope) -> (r: PropertyAddress)
    ensures
        r == spec_address(Selector::DataSource, spec_address_scope(*scope)),
{
    address(Selector::DataSource, address_scope(scope))
}

/// The translation of a data-source identifier into its name in one scope.
pub fn source_name_address(scope: &Scope) -> (r: PropertyAddress)
    ensures
        r == spec_address(Selector::DataSourceNameForId, spec_address_scope(*scope)),
{
    address(Selector::DataSourceNameForId, address_scope(scope))
}

/// What a query for a string property yields once marshaled.
pub open spec fn spec_string_property(
    queried: Result<StringRef, QueryError>,
) -> Result<Seq<char>, Error> {
    match queried {
        Err(e) => Err(Error::InvalidParameters(e)),
        Ok(s) => match s.spec_to_string() {
            Ok(t) => Ok(t),
            Err(e) => Err(Error::ConversionFailed(e)),
        },
    }
}

/// The text an operation's result carries, with its error unchanged.
pub open spec fn text_of(r: Result<String, Error>) -> Result<Seq<char>, Error> {
    match r {
        Ok(s) => Ok(s@),
        Err(e) => Err(e),
    }
}

fn string_property(queried: Result<StringRef, QueryError>) -> (r: Result<String, Error>)
    ensures
        text_of(r) == spec_string_property(queried),
{
    match queried {
        Err(e) => Err(Error::InvalidParameters(e)),
        Ok(s) => match s.into_string() {
            Ok(t) => Ok(t),
            Err(e) => Err(Error::ConversionFailed(e)),
        },
    }
}

/// One hardware device, named by its handle.
#[derive(Clone, Copy, Debug, PartialEq, Eq, Structural)]
pub struct AudioObject(pub u32);

impl Default for AudioObject {
    fn default() -> (r: AudioObject)
        ensures
            r == AudioObject(UNKNOWN_OBJECT),
    {
        AudioObject::new(UNKNOWN_OBJECT)
    }
}

/// Number of streams a device reports through a stream-list query.
pub open spec fn spec_number_of_streams(
    stream_bytes: Result<usize, QueryError>,
) -> Result<usize, Error> {
    match stream_bytes {
        Ok(n) => Ok((n / STREAM_ID_SIZE) as usize),
        Err(e) => Err(Error::InvalidParameters(e)),
    }
}

/// Whether a device has streams in a scope, given its stream-list query.
pub open spec fn spec_in_scope(stream_bytes: Result<usize, QueryError>) -> Result<bool, Error> {
    match spec_number_of_streams(stream_bytes) {
        Ok(n) => Ok(n > 0),
        Err(e) => Err(e),
    }
}

/// Whether a scope test found streams; only then does a data-source lookup
/// query the data source, or a default-device change query the current default.
pub open spec fn spec_scope_confirmed(in_scope: Result<bool, Error>) -> bool {
    in_scope == Ok::<bool, Error>(true)
}

/// The current data source of a device in a scope: refused where the device
/// has no streams there, else the value the source query read.
pub open spec fn spec_device_source(
    in_scope: Result<bool, Error>,
    source: Option<Result<Vec<u8>, QueryError>>,
) -> Result<u32, Error> {
    match in_scope {
        Err(e) => Err(e),
        Ok(false) => Err(Error::WrongScope),
        Ok(true) => match source->Some_0 {
            Err(e) => Err(Error::InvalidParameters(e)),
            Ok(b) => if b@.len() == 4 {
                Ok(word_at(b@, 0) as u32)
            } else {
                Err(Error::InvalidParameters(QueryError::UnexpectedSize(b@.len() as usize)))
            },
        },
    }
}

/// The name of a device's current data source: the source lookup's failure
/// as it is, else the marshaled result of the translation query.
pub open spec fn spec_device_source_name(
    source: Result<u32, Error>,
    translated: Option<Result<StringRef, QueryError>>,
) -> Result<Seq<char>, Error> {
    match source {
        Err(e) => Err(e),
        Ok(_) => spec_string_property(translated->Some_0),
    }
}

/// Whether a label falls back to the device name: only where the source
/// name failed for a reason other than the scope.
pub open spec fn spec_name_needed(source_name: Result<Seq<char>, Error>) -> bool {
    source_name is Err && source_name->Err_0 != Error::WrongScope
}

/// A device's label: its source name, or its name where the source name
/// failed for any reason but the scope.
pub open spec fn spec_device_label(
    source_name: Result<Seq<char>, Error>,
    name: Option<Result<Seq<char>, Error>>,
) -> Result<Seq<char>, Error> {
    match source_name {
        Ok(s) => Ok(s),
        Err(Error::WrongScope) => Err(Error::WrongScope),
        Err(_) => name->Some_0,
    }
}

/// The text an optional lookup's result carries.
pub open spec fn opt_text_of(o: Option<Result<String, Error>>) -> Option<Result<Seq<char>, Error>> {
    match o {
        Some(r) => Some(text_of(r)),
        None => None,
    }
}

impl AudioObject {
    pub fn new(id: u32) -> (r: AudioObject)
        ensures
            r.0 == id,
    {
        AudioObject(id)
    }

    /// The handle of this device.
    pub fn id(&self) -> (r: u32)
        ensures
            r == self.0,
    {
        self.0
    }

    pub fn is_valid(&self) -> (r: bool)
        ensures
            r == (self.0 != UNKNOWN_OBJECT),
    {
        self.0 != UNKNOWN_OBJECT
    }

    /// Whether a label lookup, given the source-name result, needs the
    /// device name.
    pub fn name_needed(source_name: &Result<String, Error>) -> (r: bool)
        ensures
            r == spec_name_needed(text_of(*source_name)),
    {
        match source_name {
            Ok(_) => false,
            Err(Error::WrongScope) => false,
            Err(_) => true,
        }
    }

    /// The device's label, from its source-name lookup and, only where that
    /// failed for a reason other than the scope, its name lookup.
    pub fn get_device_label(
        &self,
        source_name: Result<String, Error>,
        name: Option<Result<String, Error>>,
    ) -> (r: Result<String, Error>)
        requires
            name is Some <==> spec_name_needed(text_of(source_name)),
        ensures
            text_of(r) == spec_device_label(text_of(source_name), opt_text_of(name)),
    {
        match source_name {
            Ok(s) => Ok(s),
            Err(Error::WrongScope) => Err(Error::WrongScope),
            Err(_) => match name {
                Some(n) => n,
                None => Err(Error::WrongScope),
            },
        }
    }

    /// The device's name, from the query of its name property.
    pub fn get_device_name(&self, queried: Result<StringRef, QueryError>) -> (r: Result<
        String,
        Error,
    >)
        ensures
            text_of(r) == spec_string_property(queried),
    {
        string_property(queried)
    }

    /// The name of the device's current data source, from the source lookup
    /// and, only where that succeeded, the translation query made with the
    /// source's identifier.
    pub fn get_device_source_name(
        &self,
        source: Result<u32, Error>,
        translated: Option<Result<StringRef, QueryError>>,
    ) -> (r: Result<String, Error>)
        requires
            translated is Some <==> source is Ok,
        ensures
            text_of(r) == spec_device_source_name(source, translated),
    {
        match source {
            Err(e) => Err(e),
            Ok(_) => match translated {
                Some(t) => string_property(t),
                None => Err(Error::WrongScope),
            },
        }
    }

    /// Whether a scope test found streams: the condition for querying the
    /// data source or, in a default-device change, the current default.
    pub fn scope_confirmed(in_scope: &Result<bool, Error>) -> (r: bool)
        ensures
            r == spec_scope_confirmed(*in_scope),
    {
        match in_scope {
            Ok(true) => true,
            _ => false,
        }
    }

    /// The device's current data source, from its scope test and, only where
    /// that found streams, the data-source query.
    pub fn get_device_source(
        &self,
        in_scope: Result<bool, Error>,
        source: Option<Result<Vec<u8>, QueryError>>,
    ) -> (r: Result<u32, Error>)
        requires
            source is Some <==> spec_scope_confirmed(in_scope),
        ensures
            r == spec_device_source(in_scope, source),
    {
        match in_scope {
            Err(e) => return Err(e),
            Ok(false) => return Err(Error::WrongScope),
            Ok(true) => {},
        }
        match source {
            None => Err(Error::WrongScope),
            Some(Err(e)) => Err(Error::InvalidParameters(e)),
            Some(Ok(b)) => match word_from_bytes(&b) {
                Ok(w) => Ok(w),
                Err(e) => Err(Error::InvalidParameters(e)),
            },
        }
    }

    /// Whether the device has any stream in a scope, from the byte size of
    /// its stream list there.
    pub fn in_scope(&self, stream_bytes: Result<usize, QueryError>) -> (r: Result<bool, Error>)
        ensures
            r == spec_in_scope(stream_bytes),
    {
        match self.number_of_streams(stream_bytes) {
            Ok(n) => Ok(n > 0),
            Err(e) => Err(e),
        }
    }

    /// Number of streams, from the byte size of the stream list.
    pub fn number_of_streams(&self, stream_bytes: Result<usize, QueryError>) -> (r: Result<
        usize,
        Error,
    >)
        ensures
            r == spec_number_of_streams(stream_bytes),
    {
        match stream_bytes {
            Ok(n) => Ok(n / STREAM_ID_SIZE),
            Err(e) => Err(Error::InvalidParameters(e)),
        }
    }
}

/// The system root object: entry point for enumeration and for changing
/// default devices.
#[derive(Clone, Copy, Debug, PartialEq, Eq, Structural)]
pub struct AudioSystemObject(pub u32);

/// The default device of a scope, from the raw bytes of its query.
pub open spec fn spec_default_device(raw: Result<Vec<u8>, QueryError>) -> Result<AudioObject, Error> {
    match raw {
        Err(e) => Err(Error::InvalidParameters(e)),
        Ok(b) => if b@.len() != 4 {
            Err(Error::InvalidParameters(QueryError::UnexpectedSize(b@.len() as usize)))
        } else if word_at(b@, 0) == UNKNOWN_OBJECT {
            Err(Error::NoDeviceFound)
        } else {
            Ok(AudioObject(word_at(b@, 0) as u32))
        },
    }
}

/// Every device handle a device-list query read.
pub open spec fn spec_all_devices(raw: Result<Vec<u8>, QueryError>) -> Result<
    Seq<AudioObject>,
    Error,
> {
    match raw {
        Err(e) => Err(Error::InvalidParameters(e)),
        Ok(b) => if b@.len() % 4 == 0 {
            Ok(words_of(b@).map_values(|w: u32| AudioObject(w)))
        } else {
            Err(Error::InvalidParameters(QueryError::UnexpectedSize(b@.len() as usize)))
        },
    }
}

/// The probed devices that have streams in the scope, in their order, or the
/// first probe failure.
pub open spec fn spec_scoped_devices(probes: Seq<(AudioObject, Result<bool, Error>)>) -> Result<
    Seq<AudioObject>,
    Error,
>
    decreases probes.len(),
{
    if probes.len() == 0 {
        Ok(Seq::empty())
    } else {
        match spec_scoped_devices(probes.drop_last()) {
            Err(e) => Err(e),
            Ok(kept) => match probes.last().1 {
                Err(e) => Err(e),
                Ok(true) => Ok(kept.push(probes.last().0)),
                Ok(false) => Ok(kept),
            },
        }
    }
}

/// The outcome of asking to make `device` the default of a scope: refused
/// where the device has no streams there, then where it already is the
/// default; else the write of its handle to the scope's default-device property.
pub open spec fn spec_set_default_device(
    system: AudioSystemObject,
    device: AudioObject,
    scope: Scope,
    device_in_scope: Result<bool, Error>,
    current_default: Option<Result<AudioObject, Error>>,
) -> Result<PropertyWrite, Error> {
    match device_in_scope {
        Err(e) => Err(e),
        Ok(false) => Err(Error::WrongScope),
        Ok(true) => match current_default->Some_0 {
            Err(e) => Err(e),
            Ok(current) => if current == device {
                Err(Error::SetSameDevice)
            } else {
                Ok(
                    PropertyWrite {
                        object: system.0,
                        address: spec_default_device_address(scope),
                        value: device.0,
                    },
                )
            },
        },
    }
}

/// Whether `d` is the first candidate that differs from `current`.
pub open spec fn first_other(candidates: Seq<AudioObject>, current: AudioObject, d: AudioObject) -> bool {
    exists|k: int|
        #![trigger candidates[k]]
        0 <= k < candidates.len() && candidates[k] == d && d != current && forall|j: int|
            0 <= j < k ==> candidates[j] == current
}

/// The listed devices paired with their scope tests.
pub open spec fn zip_probes(devices: Seq<AudioObject>, probes: Seq<Result<bool, Error>>) -> Seq<
    (AudioObject, Result<bool, Error>),
> {
    Seq::new(devices.len(), |i: int| (devices[i], probes[i]))
}

/// The devices with streams in a scope: the device-list lookup's failure as
/// it is, else the listed devices whose scope test found streams, or the
/// first scope test's failure.
pub open spec fn spec_get_devices(
    listed: Result<Seq<AudioObject>, Error>,
    probes: Option<Seq<Result<bool, Error>>>,
) -> Result<Seq<AudioObject>, Error> {
    match listed {
        Err(e) => Err(e),
        Ok(v) => spec_scoped_devices(zip_probes(v, probes->Some_0)),
    }
}

/// The scope tests an optional probe list holds.
pub open spec fn probes_view(p: Option<Vec<Result<bool, Error>>>) -> Option<
    Seq<Result<bool, Error>>,
> {
    match p {
        Some(v) => Some(v@),
        None => None,
    }
}

/// The results of a device-list query mapped to devices.
pub open spec fn devices_view(r: Result<Vec<AudioObject>, Error>) -> Result<Seq<AudioObject>, Error> {
    match r {
        Ok(v) => Ok(v@),
        Err(e) => Err(e),
    }
}

impl AudioSystemObject {
    pub fn new() -> (r: AudioSystemObject)
        ensures
            r.0 == SYSTEM_OBJECT,
    {
        AudioSystemObject(SYSTEM_OBJECT)
    }

    /// The handle of the system object.
    pub fn id(&self) -> (r: u32)
        ensures
            r == self.0,
    {
        self.0
    }

    /// The default device of a scope, from the raw bytes its query read.
    pub fn get_default_device(&self, raw: Result<Vec<u8>, QueryError>) -> (r: Result<
        AudioObject,
        Error,
    >)
        ensures
            r == spec_default_device(raw),
    {
        match raw {
            Err(e) => Err(Error::InvalidParameters(e)),
            Ok(b) => match word_from_bytes(&b) {
                Err(e) => Err(Error::InvalidParameters(e)),
                Ok(w) => {
                    let device = AudioObject::new(w);
                    if device.is_valid() {
                        Ok(device)
                    } else {
                        Err(Error::NoDeviceFound)
                    }
                },
            },
        }
    }

    /// Every device, from the raw bytes of the device-list query.
    pub fn get_all_devices(&self, raw: Result<Vec<u8>, QueryError>) -> (r: Result<
        Vec<AudioObject>,
        Error,
    >)
        ensures
            devices_view(r) == spec_all_devices(raw),
    {
        let b = match raw {
            Err(e) => return Err(Error::InvalidParameters(e)),
            Ok(b) => b,
        };
        let words = match words_from_bytes(&b) {
            Err(e) => return Err(Error::InvalidParameters(e)),
            Ok(w) => w,
        };
        let mut devices: Vec<AudioObject> = Vec::new();
        let mut i: usize = 0;
        while i < words.len()
            invariant
                words@ == words_of(b@),
                i <= words@.len(),
                devices@ == words@.take(i as int).map_values(|w: u32| AudioObject(w)),
            decreases words.len() - i,
        {
            devices.push(AudioObject::new(words[i]));
            i = i + 1;
            assert(devices@ =~= words@.take(i as int).map_values(|w: u32| AudioObject(w)));
        }
        assert(words@.take(i as int) =~= words@);
        Ok(devices)
    }

    /// The devices with streams in a scope, from the device-list lookup and,
    /// only where that succeeded, the scope test of each listed device in order.
    pub fn get_devices(
        &self,
        listed: Result<Vec<AudioObject>, Error>,
        probes: Option<Vec<Result<bool, Error>>>,
    ) -> (r: Result<Vec<AudioObject>, Error>)
        requires
            probes is Some <==> listed is Ok,
            listed is Ok ==> probes->Some_0@.len() == listed->Ok_0@.len(),
        ensures
            devices_view(r) == spec_get_devices(devices_view(listed), probes_view(probes)),
    {
        let devices = match listed {
            Err(e) => return Err(e),
            Ok(d) => d,
        };
        let tests = match probes {
            None => return Err(Error::NoDeviceFound),
            Some(p) => p,
        };
        let ghost pairs = zip_probes(devices@, tests@);
        let mut kept: Vec<AudioObject> = Vec::new();
        let mut i: usize = 0;
        while i < devices.len()
            invariant
                tests@.len() == devices@.len(),
                devices_view(listed) == Ok::<Seq<AudioObject>, Error>(devices@),
                probes_view(probes) == Some(tests@),
                pairs == zip_probes(devices@, tests@),
                i <= devices@.len(),
                spec_scoped_devices(pairs.take(i as int)) == Ok::<Seq<AudioObject>, Error>(kept@),
            decreases devices.len() - i,
        {
            let device = devices[i];
            let probe = tests[i];
            assert(pairs.take(i + 1).drop_last() =~= pairs.take(i as int));
            assert(pairs[i as int] == (device, probe));
            match probe {
                Err(e) => {
                    proof {
                        lemma_scoped_error_sticks(pairs, i as int + 1, e);
                    }
                    assert(pairs.take(pairs.len() as int) =~= pairs);
                    assert(spec_scoped_devices(pairs.take(pairs.len() as int)) == Err::<
                        Seq<AudioObject>,
                        Error,
                    >(e));
                    return Err(e);
                },
                Ok(true) => kept.push(device),
                Ok(false) => {},
            }
            i = i + 1;
        }
        assert(pairs.take(i as int) =~= pairs);
        Ok(kept)
    }

    /// Judges a request to make `device` the default of `scope`, given the
    /// device's scope test and, only where that found streams, the scope's
    /// current default; on success the write that makes the change.
    pub fn set_default_device(
        &self,
        device: &AudioObject,
        scope: &Scope,
        device_in_scope: Result<bool, Error>,
        current_default: Option<Result<AudioObject, Error>>,
    ) -> (r: Result<PropertyWrite, Error>)
        requires
            current_default is Some <==> spec_scope_confirmed(device_in_scope),
        ensures
            r == spec_set_default_device(*self, *device, *scope, device_in_scope, current_default),
    {
        // The platform accepts an unknown device, a device without streams
        // in the scope, and the current default alike: refuse them here.
        match device_in_scope {
            Err(e) => return Err(e),
            Ok(false) => return Err(Error::WrongScope),
            Ok(true) => {},
        }
        let current = match current_default {
            None => return Err(Error::WrongScope),
            Some(Err(e)) => return Err(e),
            Some(Ok(c)) => c,
        };
        if *device == current {
            return Err(Error::SetSameDevice);
        }
        Ok(PropertyWrite { object: self.0, address: default_device_address(scope), value: device.0 })
    }

    /// Whether switching a scope's default, given the available devices,
    /// asks for the current default: only where there are at least two.
    pub fn default_query_needed(candidates: &Vec<AudioObject>) -> (r: bool)
        ensures
            r == (candidates@.len() >= 2),
    {
        candidates.len() >= 2
    }

    /// The device to switch a scope's default to: none where fewer than two
    /// candidates are available, else the first candidate other than the
    /// current default, which is asked for only in that case.
    pub fn choose_new_default(candidates: &Vec<AudioObject>, current: Option<AudioObject>) -> (r:
        Option<AudioObject>)
        requires
            current is Some <==> candidates@.len() >= 2,
        ensures
            candidates@.len() < 2 ==> r is None,
            candidates@.len() >= 2 ==> match r {
                Some(d) => first_other(candidates@, current->Some_0, d),
                None => forall|j: int|
                    0 <= j < candidates@.len() ==> candidates@[j] == current->Some_0,
            },
    {
        let present = match current {
            None => return None,
            Some(c) => c,
        };
        let mut i: usize = 0;
        while i < candidates.len()
            invariant
                candidates@.len() >= 2,
                i <= candidates@.len(),
                forall|j: int| 0 <= j < i ==> candidates@[j] == present,
                present == current->Some_0,
            decreases candidates.len() - i,
        {
            if candidates[i] != present {
                assert(first_other(candidates@, present, candidates@[i as int]));
                return Some(candidates[i]);
            }
            i = i + 1;
        }
        None
    }
}

/// Once a probe fails, the scoped device list of every longer prefix fails
/// with the first such error.
proof fn lemma_scoped_error_sticks(
    probes: Seq<(AudioObject, Result<bool, Error>)>,
    n: int,
    e: Error,
)
    requires
        0 < n <= probes.len(),
        spec_scoped_devices(probes.take(n - 1)) is Ok,
        probes[n - 1].1 == Err::<bool, Error>(e),
    ensures
        forall|m: int| n <= m <= probes.len() ==> spec_scoped_devices(probes.take(m)) == Err::<
            Seq<AudioObject>,
            Error,
        >(e),
{
    assert forall|m: int| n <= m <= probes.len() implies spec_scoped_devices(probes.take(m))
        == Err::<Seq<AudioObject>, Error>(e) by {
        lemma_scoped_error_prefix(probes, n, m, e);
    }
}

proof fn lemma_scoped_error_prefix(
    probes: Seq<(AudioObject, Result<bool, Error>)>,
    n: int,
    m: int,
    e: Error,
)
    requires
        0 < n <= m <= probes.len(),
        spec_scoped_devices(probes.take(n - 1)) is Ok,
        probes[n - 1].1 == Err::<bool, Error>(e),
    ensures
        spec_scoped_devices(probes.take(m)) == Err::<Seq<AudioObject>, Error>(e),
    decreases m - n,
{
    assert(probes.take(m).drop_last() =~= probes.take(m - 1));
    if m > n {
        lemma_scoped_error_prefix(probes, n, m - 1, e);
    }
}

/// A device's scope test depends on its stream count alone: two stream
/// lists with the same count give the same answer, which is whether that
/// count is positive.
pub proof fn lemma_in_scope_by_stream_count(bytes_a: usize, bytes_b: usize)
    requires
        bytes_a / STREAM_ID_SIZE == bytes_b / STREAM_ID_SIZE,
    ensures
        spec_in_scope(Ok(bytes_a)) == spec_in_scope(Ok(bytes_b)),
        spec_in_scope(Ok(bytes_a)) == Ok::<bool, Error>(bytes_a / STREAM_ID_SIZE > 0),
{
}

/// A device with no streams in a scope is the wrong scope for every source
/// lookup there: its data source is refused without a data-source query,
/// its source name is refused without a translation query, and its label is
/// refused without a name query.
pub proof fn lemma_no_streams_wrong_scope(stream_bytes: usize)
    requires
        stream_bytes / STREAM_ID_SIZE == 0,
    ensures
        !spec_scope_confirmed(spec_in_scope(Ok(stream_bytes))),
        spec_device_source(spec_in_scope(Ok(stream_bytes)), None) == Err::<u32, Error>(
            Error::WrongScope,
        ),
        spec_device_source_name(spec_device_source(spec_in_scope(Ok(stream_bytes)), None), None)
            == Err::<Seq<char>, Error>(Error::WrongScope),
        !spec_name_needed(Err(Error::WrongScope)),
        spec_device_label(Err(Error::WrongScope), None) == Err::<Seq<char>, Error>(
            Error::WrongScope,
        ),
{
}

/// Changing a default device is refused as the wrong scope whenever the
/// device has no streams in the scope, without asking for the current
/// default, and as a same-device change whenever the device is in scope and
/// already the default.
pub proof fn lemma_set_default_guards(system: AudioSystemObject, device: AudioObject, scope: Scope)
    ensures
        !spec_scope_confirmed(Ok(false)),
        spec_set_default_device(system, device, scope, Ok(false), None) == Err::<
            PropertyWrite,
            Error,
        >(Error::WrongScope),
        spec_set_default_device(system, device, scope, Ok(true), Some(Ok(device))) == Err::<
            PropertyWrite,
            Error,
        >(Error::SetSameDevice),
{
}

/// A device-list query that read `b` lists exactly one device per
/// handle-sized word of it, and a byte count that is not a whole number of
/// handles is refused as invalid parameters.
pub proof fn lemma_device_list_length(b: Vec<u8>)
    ensures
        b@.len() % 4 == 0 ==> spec_all_devices(Ok(b)) is Ok && spec_all_devices(
            Ok(b),
        )->Ok_0.len() == b@.len() / 4,
        b@.len() % 4 != 0 ==> spec_all_devices(Ok(b)) == Err::<Seq<AudioObject>, Error>(
            Error::InvalidParameters(QueryError::UnexpectedSize(b@.len() as usize)),
        ),
{
}

} // verus!
