use rust_coreaudio::audio_objects::{
    default_device_address, device_name_address, devices_address, source_address,
    source_name_address, streams_address, AudioObject, AudioSystemObject, Error, Scope,
    SYSTEM_OBJECT, UNKNOWN_OBJECT,
};
use rust_coreaudio::property::{
    check_value_size, element_count, word_from_bytes, words_from_bytes, AddressScope, PropertyAddress,
    PropertyWrite, QueryError, Selector, ELEMENT_MASTER,
};
use rust_coreaudio::string_wrapper::{self, btye_array_to_string, StringRef};

fn le_bytes(words: &[u32]) -> Vec<u8> {
    let mut out = Vec::new();
    for w in words {
        out.extend_from_slice(&w.to_le_bytes());
    }
    out
}

fn text(s: &str) -> StringRef {
    StringRef::new(Some(Ok(s.as_bytes().to_vec())))
}

#[test]
fn array_of_24_bytes_has_six_handles() {
    assert_eq!(element_count(24, 4), Ok(6));
    let bytes = le_bytes(&[1, 2, 3, 4, 5, 0x01020304]);
    assert_eq!(bytes.len(), 24);
    assert_eq!(words_from_bytes(&bytes), Ok(vec![1, 2, 3, 4, 5, 0x01020304]));
    let devices = AudioSystemObject::new().get_all_devices(Ok(bytes)).unwrap();
    assert_eq!(devices.len(), 6);
    assert_eq!(devices[5], AudioObject::new(0x01020304));
}

#[test]
fn uneven_array_is_invalid_parameters() {
    assert_eq!(element_count(25, 4), Err(QueryError::UnexpectedSize(25)));
    let bytes = vec![0u8; 25];
    assert_eq!(words_from_bytes(&bytes), Err(QueryError::UnexpectedSize(25)));
    assert_eq!(
        AudioSystemObject::new().get_all_devices(Ok(bytes)),
        Err(Error::InvalidParameters(QueryError::UnexpectedSize(25)))
    );
}

#[test]
fn device_list_query_failure() {
    let e = QueryError::Status(-1);
    assert_eq!(AudioSystemObject::new().get_all_devices(Err(e)), Err(Error::InvalidParameters(e)));
}

#[test]
fn single_word_decoding() {
    assert_eq!(word_from_bytes(&vec![0x78, 0x56, 0x34, 0x12]), Ok(0x12345678));
    assert_eq!(word_from_bytes(&vec![1, 2]), Err(QueryError::UnexpectedSize(2)));
    assert_eq!(word_from_bytes(&vec![]), Err(QueryError::UnexpectedSize(0)));
    assert_eq!(check_value_size(8, 8), Ok(()));
    assert_eq!(check_value_size(4, 8), Err(QueryError::UnexpectedSize(4)));
}

#[test]
fn scope_follows_stream_count() {
    let d = AudioObject::new(42);
    assert_eq!(d.in_scope(Ok(0)), Ok(false));
    assert_eq!(d.in_scope(Ok(3)), Ok(false));
    assert_eq!(d.in_scope(Ok(4)), Ok(true));
    assert_eq!(d.number_of_streams(Ok(8)), Ok(2));
    let e = QueryError::Status(7);
    assert_eq!(d.in_scope(Err(e)), Err(Error::InvalidParameters(e)));
}

#[test]
fn no_output_streams_means_wrong_scope() {
    let d = AudioObject::new(42);
    let in_scope = d.in_scope(Ok(0));
    assert_eq!(in_scope, Ok(false));
    assert!(!AudioObject::scope_confirmed(&in_scope));
    assert_eq!(d.get_device_source(in_scope, None), Err(Error::WrongScope));
    let source = d.get_device_source(in_scope, None);
    assert_eq!(d.get_device_source_name(source, None), Err(Error::WrongScope));
    let source_name = d.get_device_source_name(source, None);
    assert!(!AudioObject::name_needed(&source_name));
    assert_eq!(d.get_device_label(source_name, None), Err(Error::WrongScope));
}

#[test]
fn device_source_in_scope() {
    let d = AudioObject::new(42);
    assert_eq!(d.get_device_source(Ok(true), Some(Ok(le_bytes(&[0x696e746c])))), Ok(0x696e746c));
    assert_eq!(
        d.get_device_source(Ok(true), Some(Ok(vec![1, 2, 3]))),
        Err(Error::InvalidParameters(QueryError::UnexpectedSize(3)))
    );
    let e = QueryError::Status(-3);
    assert_eq!(d.get_device_source(Ok(true), Some(Err(e))), Err(Error::InvalidParameters(e)));
    assert_eq!(d.get_device_source(Err(Error::InvalidParameters(e)), None), Err(Error::InvalidParameters(e)));
}

#[test]
fn validity_and_default() {
    assert!(!AudioObject::default().is_valid());
    assert_eq!(AudioObject::default().id(), UNKNOWN_OBJECT);
    assert!(AudioObject::new(3).is_valid());
    assert_eq!(AudioSystemObject::new().id(), SYSTEM_OBJECT);
}

#[test]
fn default_device_lookup() {
    let sys = AudioSystemObject::new();
    assert_eq!(sys.get_default_device(Ok(le_bytes(&[3]))), Ok(AudioObject::new(3)));
    assert_eq!(sys.get_default_device(Ok(le_bytes(&[0]))), Err(Error::NoDeviceFound));
    assert_eq!(
        sys.get_default_device(Ok(vec![3])),
        Err(Error::InvalidParameters(QueryError::UnexpectedSize(1)))
    );
}

#[test]
fn set_default_rejects_device_without_scope() {
    let sys = AudioSystemObject::new();
    let d = AudioObject::new(7);
    assert_eq!(
        sys.set_default_device(&d, &Scope::Output, Ok(false), None),
        Err(Error::WrongScope)
    );
    assert!(!AudioObject::scope_confirmed(&Ok(false)));
    let e = Error::InvalidParameters(QueryError::Status(-2));
    assert_eq!(sys.set_default_device(&d, &Scope::Output, Err(e), None), Err(e));
    assert_eq!(
        sys.set_default_device(&d, &Scope::Output, Ok(true), Some(Err(Error::NoDeviceFound))),
        Err(Error::NoDeviceFound)
    );
}

#[test]
fn set_default_rejects_same_device() {
    let sys = AudioSystemObject::new();
    let d = AudioObject::new(3);
    assert_eq!(
        sys.set_default_device(&d, &Scope::Input, Ok(true), Some(Ok(AudioObject::new(3)))),
        Err(Error::SetSameDevice)
    );
}

#[test]
fn change_output_default_from_three_to_seven() {
    let sys = AudioSystemObject::new();
    let candidates = vec![AudioObject::new(3), AudioObject::new(7)];
    let current = sys.get_default_device(Ok(le_bytes(&[3]))).unwrap();
    assert!(AudioSystemObject::default_query_needed(&candidates));
    let chosen = AudioSystemObject::choose_new_default(&candidates, Some(current)).unwrap();
    assert_eq!(chosen, AudioObject::new(7));
    let write = sys.set_default_device(&chosen, &Scope::Output, Ok(true), Some(Ok(current))).unwrap();
    assert_eq!(
        write,
        PropertyWrite {
            object: SYSTEM_OBJECT,
            address: PropertyAddress {
                selector: Selector::DefaultOutputDevice,
                scope: AddressScope::Global,
                element: ELEMENT_MASTER,
            },
            value: 7,
        }
    );
}

#[test]
fn single_candidate_changes_nothing() {
    let candidates = vec![AudioObject::new(3)];
    assert!(!AudioSystemObject::default_query_needed(&candidates));
    assert_eq!(AudioSystemObject::choose_new_default(&candidates, None), None);
    assert!(!AudioSystemObject::default_query_needed(&vec![]));
    assert_eq!(AudioSystemObject::choose_new_default(&vec![], None), None);
    let same = vec![AudioObject::new(3), AudioObject::new(3)];
    assert_eq!(AudioSystemObject::choose_new_default(&same, Some(AudioObject::new(3))), None);
}

#[test]
fn scoped_device_list_keeps_order() {
    let sys = AudioSystemObject::new();
    let listed = vec![AudioObject::new(3), AudioObject::new(5), AudioObject::new(7)];
    let probes = vec![Ok(true), Ok(false), Ok(true)];
    assert_eq!(
        sys.get_devices(Ok(listed), Some(probes)),
        Ok(vec![AudioObject::new(3), AudioObject::new(7)])
    );
    let e = Error::InvalidParameters(QueryError::Status(-9));
    let listed = vec![AudioObject::new(3), AudioObject::new(5)];
    assert_eq!(sys.get_devices(Ok(listed), Some(vec![Ok(true), Err(e)])), Err(e));
}

#[test]
fn failing_device_list_fails_scoped_list() {
    let sys = AudioSystemObject::new();
    let e = Error::InvalidParameters(QueryError::Status(-4));
    assert_eq!(sys.get_devices(Err(e), None), Err(e));
    assert_eq!(sys.get_devices(Ok(vec![]), Some(vec![])), Ok(vec![]));
}

#[test]
fn label_falls_back_to_name() {
    let d = AudioObject::new(9);
    let source_name = Err(Error::InvalidParameters(QueryError::Status(-1)));
    assert!(AudioObject::name_needed(&source_name));
    let name = d.get_device_name(Ok(text("USB Headset")));
    assert_eq!(d.get_device_label(source_name, Some(name)), Ok("USB Headset".to_string()));
}

#[test]
fn label_prefers_source_name() {
    let d = AudioObject::new(9);
    let source_name = d.get_device_source_name(Ok(0x6973706b), Some(Ok(text("Internal Speakers"))));
    assert!(!AudioObject::name_needed(&source_name));
    assert_eq!(d.get_device_label(source_name, None), Ok("Internal Speakers".to_string()));
}

#[test]
fn label_keeps_wrong_scope() {
    let d = AudioObject::new(9);
    assert!(!AudioObject::name_needed(&Err(Error::WrongScope)));
    assert_eq!(d.get_device_label(Err(Error::WrongScope), None), Err(Error::WrongScope));
}

#[test]
fn name_query_errors() {
    let d = AudioObject::new(9);
    let e = QueryError::Status(-5);
    assert_eq!(d.get_device_name(Err(e)), Err(Error::InvalidParameters(e)));
    assert_eq!(
        d.get_device_name(Ok(StringRef::null())),
        Err(Error::ConversionFailed(string_wrapper::Error::NullString))
    );
    assert_eq!(
        d.get_device_source_name(Ok(1), Some(Ok(StringRef::new(Some(Ok(vec![0xff, 0xfe])))))),
        Err(Error::ConversionFailed(string_wrapper::Error::Utf8))
    );
    assert_eq!(d.get_device_source_name(Ok(1), Some(Err(e))), Err(Error::InvalidParameters(e)));
    let lookup = Err(Error::InvalidParameters(QueryError::UnexpectedSize(2)));
    assert_eq!(
        d.get_device_source_name(lookup, None),
        Err(Error::InvalidParameters(QueryError::UnexpectedSize(2)))
    );
}

#[test]
fn marshaling_outcomes() {
    assert_eq!(btye_array_to_string(vec![0x68, 0x69]), Ok("hi".to_string()));
    assert_eq!(btye_array_to_string("héllo".as_bytes().to_vec()), Ok("héllo".to_string()));
    assert_eq!(btye_array_to_string(vec![0xc3]), Err(string_wrapper::Error::Utf8));
    assert_eq!(text("abc").to_string(), Ok("abc".to_string()));
    assert_eq!(text("abc").into_string(), Ok("abc".to_string()));
    assert_eq!(
        StringRef::new(Some(Err(string_wrapper::Error::LengthIsZero))).to_string(),
        Err(string_wrapper::Error::LengthIsZero)
    );
    assert_eq!(StringRef::null().into_string(), Err(string_wrapper::Error::NullString));
}

#[test]
fn copy_out_checks() {
    assert_eq!(string_wrapper::check_length(0), Err(string_wrapper::Error::LengthIsZero));
    assert_eq!(string_wrapper::check_length(5), Ok(5));
    assert_eq!(string_wrapper::check_probe(5, 7), Ok(7));
    assert_eq!(string_wrapper::check_probe(0, 7), Err(string_wrapper::Error::FailToGetBytes));
    assert_eq!(string_wrapper::check_probe(5, 0), Err(string_wrapper::Error::FailToGetBytes));
    assert_eq!(string_wrapper::check_fill(5), Ok(()));
    assert_eq!(string_wrapper::check_fill(-1), Err(string_wrapper::Error::FailToGetBytes));
}

#[test]
fn fixed_addresses() {
    let global = |selector| PropertyAddress { selector, scope: AddressScope::Global, element: ELEMENT_MASTER };
    assert_eq!(device_name_address(), global(Selector::ObjectName));
    assert_eq!(devices_address(), global(Selector::Devices));
    assert_eq!(default_device_address(&Scope::Input), global(Selector::DefaultInputDevice));
    assert_eq!(streams_address(&Scope::Input).scope, AddressScope::Input);
    assert_eq!(source_address(&Scope::Output).selector, Selector::DataSource);
    assert_eq!(source_address(&Scope::Output).scope, AddressScope::Output);
    assert_eq!(source_name_address(&Scope::Input).selector, Selector::DataSourceNameForId);
}
