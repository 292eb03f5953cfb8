use nvtxw::emit::{
    enum_register, event_scope_register, event_write, schema_register, EnumAttr, EnumEntry,
    EventScopeAttributes, PayloadData, SchemaAttr, SchemaEntry,
};
use nvtxw::interface::{require_entry, InterfaceCore, InterfaceHandle, TableOp};
use nvtxw::loader::{
    default_backend_filename, get_interface, initialize_simple, resolve_backend_module,
    resolve_load_request, unload, validate_init_mode, InitMode, LoadReply, LocatorForm,
    NegotiateReply, Platform,
};
use nvtxw::naming::ProbeOutcome;
use nvtxw::session::{
    merge_config, report_extension, session_begin, session_begin_simple, session_end,
    SessionAttributes, SessionHandle, SessionReply,
};
use nvtxw::status::{check, ResultCode};
use nvtxw::stream::{
    stream_close, stream_open, stream_open_simple, OrderInterleaving, OrderingSkid, OrderingType,
    StreamAttributes, StreamHandle, StreamReply,
};

fn all_codes() -> [ResultCode; 12] {
    [
    ResultCode::Success,
    ResultCode::Failed,
    ResultCode::InvalidArgument,
    ResultCode::InvalidInitMode,
    ResultCode::LibraryNotFound,
    ResultCode::ConfigNotFound,
    ResultCode::LoaderSymbolMissing,
    ResultCode::LoaderFailed,
    ResultCode::InterfaceIdNotSupported,
    ResultCode::ConfigMissingLoaderInfo,
    ResultCode::UnsupportedLoaderMode,
    ResultCode::EnvVarNotFound,
    ]
}

fn loaded_handle() -> InterfaceHandle {
    InterfaceHandle { core: InterfaceCore::complete(), module: 7 }
}

fn bare_handle() -> InterfaceHandle {
    InterfaceHandle { core: InterfaceCore::vacant(), module: 7 }
}

#[test]
fn result_codes_round_trip_on_the_wire() {
    for (i, code) in all_codes().iter().enumerate() {
        assert_eq!(code.wire(), i as i32);
        assert_eq!(ResultCode::from_wire(code.wire()), Some(*code));
    }
    assert_eq!(ResultCode::from_wire(12), None);
    assert_eq!(ResultCode::from_wire(-1), None);
}

#[test]
fn check_keeps_failure_codes() {
    assert_eq!(check(ResultCode::Success), Ok(()));
    assert_eq!(check(ResultCode::Failed), Err(ResultCode::Failed));
    assert_eq!(
        check(ResultCode::LibraryNotFound),
        Err(ResultCode::LibraryNotFound)
    );
}

#[test]
fn default_filenames_per_platform() {
    assert_eq!(default_backend_filename(Platform::Windows), "NvtxwBackend.dll");
    assert_eq!(
        default_backend_filename(Platform::Apple),
        "libNvtxwBackend.dylib"
    );
    assert_eq!(
        default_backend_filename(Platform::OtherUnix),
        "libNvtxwBackend.so"
    );
}

#[test]
fn backend_module_resolution() {
    assert_eq!(
        resolve_backend_module(None, false, Platform::OtherUnix),
        "libNvtxwBackend.so"
    );
    assert_eq!(
        resolve_backend_module(Some("custom.so"), false, Platform::OtherUnix),
        "custom.so"
    );
    assert_eq!(
        resolve_backend_module(Some("plugins"), true, Platform::OtherUnix),
        "plugins/libNvtxwBackend.so"
    );
    assert_eq!(
        resolve_backend_module(Some("plugins/"), true, Platform::OtherUnix),
        "plugins/libNvtxwBackend.so"
    );
    assert_eq!(
        resolve_backend_module(Some("plugins"), true, Platform::Windows),
        "plugins\\NvtxwBackend.dll"
    );
    assert_eq!(
        resolve_backend_module(Some("plugins/"), true, Platform::Windows),
        "plugins/NvtxwBackend.dll"
    );
    assert_eq!(
        resolve_backend_module(Some(""), true, Platform::OtherUnix),
        "libNvtxwBackend.so"
    );
}

fn all_forms() -> [LocatorForm; 5] {
    [
        LocatorForm::LibraryFile,
        LocatorForm::Directory,
        LocatorForm::ConfigFile,
        LocatorForm::ConfigText,
        LocatorForm::EnvVarName,
    ]
}

fn accepted_forms(mode: InitMode) -> Vec<LocatorForm> {
    match mode {
        InitMode::SearchDefault => all_forms().to_vec(),
        InitMode::LibraryFilename => vec![LocatorForm::LibraryFile],
        InitMode::LibraryDirectory => vec![LocatorForm::Directory],
        InitMode::ConfigFilename => vec![LocatorForm::ConfigFile],
        InitMode::ConfigDirectory => vec![LocatorForm::Directory],
        InitMode::ConfigString => vec![LocatorForm::ConfigText],
        InitMode::ConfigEnvVar => vec![LocatorForm::EnvVarName],
    }
}

#[test]
fn mismatched_mode_is_rejected_never_reinterpreted() {
    let modes = [
        InitMode::SearchDefault,
        InitMode::LibraryFilename,
        InitMode::LibraryDirectory,
        InitMode::ConfigFilename,
        InitMode::ConfigDirectory,
        InitMode::ConfigString,
        InitMode::ConfigEnvVar,
    ];
    for (i, mode) in modes.iter().enumerate() {
        assert_eq!(mode.wire(), i as i32);
        let accepted = accepted_forms(*mode);
        for form in all_forms() {
            if accepted.contains(&form) {
                assert_eq!(validate_init_mode(*mode, form), Ok(()));
            } else {
                assert_eq!(
                    validate_init_mode(*mode, form),
                    Err(ResultCode::InvalidInitMode)
                );
            }
        }
    }
}

#[test]
fn load_requests_resolve_by_mode() {
    assert_eq!(
        resolve_load_request(
            InitMode::LibraryFilename,
            "custom.so",
            LocatorForm::LibraryFile,
            Platform::OtherUnix
        ),
        Ok(String::from("custom.so"))
    );
    assert_eq!(
        resolve_load_request(
            InitMode::LibraryDirectory,
            "plugins",
            LocatorForm::Directory,
            Platform::OtherUnix
        ),
        Ok(String::from("plugins/libNvtxwBackend.so"))
    );
    assert_eq!(
        resolve_load_request(
            InitMode::SearchDefault,
            "",
            LocatorForm::LibraryFile,
            Platform::Apple
        ),
        Ok(String::from("libNvtxwBackend.dylib"))
    );
    assert_eq!(
        resolve_load_request(
            InitMode::LibraryFilename,
            "plugins",
            LocatorForm::Directory,
            Platform::OtherUnix
        ),
        Err(ResultCode::InvalidInitMode)
    );
    assert_eq!(
        resolve_load_request(
            InitMode::ConfigString,
            "LoaderInfo=custom.so",
            LocatorForm::ConfigText,
            Platform::OtherUnix
        ),
        Err(ResultCode::UnsupportedLoaderMode)
    );
}

fn good_load_reply() -> LoadReply {
    LoadReply {
        init_code: ResultCode::Success,
        getter_present: true,
        module: 7,
        negotiate_code: ResultCode::Success,
        table: Some(InterfaceCore::complete()),
    }
}

#[test]
fn loader_failures_pass_through() {
    let reply = LoadReply { init_code: ResultCode::LibraryNotFound, ..good_load_reply() };
    assert_eq!(initialize_simple(&reply), Err(ResultCode::LibraryNotFound));
    let reply = LoadReply { init_code: ResultCode::LoaderSymbolMissing, ..good_load_reply() };
    assert_eq!(
        initialize_simple(&reply),
        Err(ResultCode::LoaderSymbolMissing)
    );
}

#[test]
fn missing_getter_is_failed() {
    let reply = LoadReply { getter_present: false, ..good_load_reply() };
    assert_eq!(initialize_simple(&reply), Err(ResultCode::Failed));
}

#[test]
fn unsupported_interface_id_fails_load() {
    let reply = LoadReply {
        negotiate_code: ResultCode::InterfaceIdNotSupported,
        ..good_load_reply()
    };
    assert_eq!(
        initialize_simple(&reply),
        Err(ResultCode::InterfaceIdNotSupported)
    );
}

#[test]
fn null_table_is_failed() {
    let reply = LoadReply { table: None, ..good_load_reply() };
    assert_eq!(initialize_simple(&reply), Err(ResultCode::Failed));
}

#[test]
fn successful_load_owns_table_and_module() {
    let handle = initialize_simple(&good_load_reply()).unwrap();
    assert_eq!(handle.core, InterfaceCore::complete());
    assert_eq!(handle.module, 7);
    assert_eq!(unload(handle), 7);
}

#[test]
fn negotiation_unsupported_id_yields_no_table() {
    let reply = NegotiateReply { code: ResultCode::InterfaceIdNotSupported, table: None };
    assert_eq!(
        get_interface(&reply),
        Err(ResultCode::InterfaceIdNotSupported)
    );
    let reply = NegotiateReply {
        code: ResultCode::InterfaceIdNotSupported,
        table: Some(InterfaceCore::complete()),
    };
    assert_eq!(
        get_interface(&reply),
        Err(ResultCode::InterfaceIdNotSupported)
    );
}

#[test]
fn negotiation_null_table_is_failed() {
    let reply = NegotiateReply { code: ResultCode::Success, table: None };
    assert_eq!(get_interface(&reply), Err(ResultCode::Failed));
}

#[test]
fn negotiation_success_returns_the_table() {
    let table = InterfaceCore { event_write: false, ..InterfaceCore::complete() };
    let reply = NegotiateReply { code: ResultCode::Success, table: Some(table) };
    assert_eq!(get_interface(&reply), Ok(table));
}

#[test]
fn entries_are_gated_individually() {
    let ops = [
        TableOp::SessionBegin,
        TableOp::SessionEnd,
        TableOp::StreamOpen,
        TableOp::StreamClose,
        TableOp::EventScopeRegister,
        TableOp::SchemaRegister,
        TableOp::EnumRegister,
        TableOp::EventWrite,
    ];
    for op in ops {
        assert_eq!(require_entry(&loaded_handle(), op), Ok(()));
        assert_eq!(
            require_entry(&bare_handle(), op),
            Err(ResultCode::InvalidArgument)
        );
    }
}

fn session_attr() -> SessionAttributes {
    SessionAttributes { name: String::from("run"), config: None }
}

fn good_session_reply() -> SessionReply {
    SessionReply { code: ResultCode::Success, session: SessionHandle { opaque: 11 } }
}

#[test]
fn session_begin_without_entry_is_invalid_argument() {
    assert_eq!(
        session_begin(&bare_handle(), &session_attr(), &good_session_reply()),
        Err(ResultCode::InvalidArgument)
    );
}

#[test]
fn session_begin_propagates_backend_failure() {
    let reply = SessionReply { code: ResultCode::Failed, ..good_session_reply() };
    assert_eq!(
        session_begin(&loaded_handle(), &session_attr(), &reply),
        Err(ResultCode::Failed)
    );
}

#[test]
fn session_begin_normalizes_null_handle() {
    let reply = SessionReply { session: SessionHandle { opaque: 0 }, ..good_session_reply() };
    assert_eq!(
        session_begin(&loaded_handle(), &session_attr(), &reply),
        Err(ResultCode::Failed)
    );
}

#[test]
fn session_lifecycle_begin_then_end() {
    let interface = loaded_handle();
    let session = session_begin(&interface, &session_attr(), &good_session_reply()).unwrap();
    assert!(!session.is_null());
    assert_eq!(session.opaque, 11);
    assert_eq!(session_end(&interface, session, ResultCode::Success), Ok(()));
}

#[test]
fn session_end_without_entry_is_invalid_argument() {
    let session = SessionHandle { opaque: 11 };
    assert_eq!(
        session_end(&bare_handle(), session, ResultCode::Success),
        Err(ResultCode::InvalidArgument)
    );
    assert_eq!(
        session_end(&loaded_handle(), session, ResultCode::Failed),
        Err(ResultCode::Failed)
    );
}

#[test]
fn merge_requests_become_config_lines() {
    assert_eq!(merge_config(None), None);
    assert_eq!(
        merge_config(Some("old.nsys-rep")),
        Some(String::from("ReportMerge=old.nsys-rep"))
    );
}

#[test]
fn report_extension_is_fixed() {
    assert_eq!(report_extension(), "nsys-rep");
}

#[test]
fn simple_session_submits_the_stripped_base_name() {
    let probes = {
        let mut v = vec![ProbeOutcome::AlreadyExists; 101];
        v[0] = ProbeOutcome::Created;
        v
    };
    let opened = session_begin_simple(
        &loaded_handle(),
        "run.nsys-rep",
        false,
        None,
        &probes,
        &good_session_reply(),
    )
    .unwrap();
    assert_eq!(opened.session.opaque, 11);
    assert_eq!(opened.attr.name, "run");
    assert_eq!(opened.attr.config, None);
    assert!(!opened.overwrote);
}

#[test]
fn simple_session_submits_the_numbered_name_when_taken() {
    let probes = {
        let mut v = vec![ProbeOutcome::AlreadyExists; 101];
        v[1] = ProbeOutcome::Created;
        v
    };
    let opened = session_begin_simple(
        &loaded_handle(),
        "run",
        false,
        None,
        &probes,
        &good_session_reply(),
    )
    .unwrap();
    assert_eq!(opened.attr.name, "run.1");
    assert!(!opened.overwrote);
}

#[test]
fn simple_session_forced_overwrite_keeps_the_plain_name() {
    let probes = vec![ProbeOutcome::AlreadyExists; 101];
    let opened = session_begin_simple(
        &loaded_handle(),
        "run",
        true,
        None,
        &probes,
        &good_session_reply(),
    )
    .unwrap();
    assert_eq!(opened.attr.name, "run");
    assert!(opened.overwrote);
}

#[test]
fn simple_session_passes_the_merge_target_through() {
    let probes = {
        let mut v = vec![ProbeOutcome::AlreadyExists; 101];
        v[0] = ProbeOutcome::Created;
        v
    };
    let opened = session_begin_simple(
        &loaded_handle(),
        "run",
        false,
        Some("old.nsys-rep"),
        &probes,
        &good_session_reply(),
    )
    .unwrap();
    assert_eq!(
        opened.attr.config,
        Some(String::from("ReportMerge=old.nsys-rep"))
    );
}

#[test]
fn simple_session_fails_when_no_name_is_free() {
    let probes = vec![ProbeOutcome::AlreadyExists; 101];
    let r = session_begin_simple(
        &loaded_handle(),
        "run.nsys-rep",
        false,
        None,
        &probes,
        &good_session_reply(),
    );
    match r {
        Err(code) => assert_eq!(code, ResultCode::Failed),
        Ok(_) => panic!("expected the exhausted claim to fail"),
    }
}

#[test]
fn simple_session_without_entry_is_invalid_argument() {
    let probes = {
        let mut v = vec![ProbeOutcome::AlreadyExists; 101];
        v[0] = ProbeOutcome::Created;
        v
    };
    let r = session_begin_simple(
        &bare_handle(),
        "run",
        false,
        None,
        &probes,
        &good_session_reply(),
    );
    match r {
        Err(code) => assert_eq!(code, ResultCode::InvalidArgument),
        Ok(_) => panic!("expected the absent entry to be rejected"),
    }
}

#[test]
fn ordering_wire_values_are_the_hand_written_ones() {
    assert_eq!(OrderInterleaving::NoInterleaving.wire(), 0);
    assert_eq!(OrderInterleaving::EventScope.wire(), 1);
    assert_eq!(OrderingType::Unknown.wire(), 0);
    assert_eq!(OrderingType::Strict.wire(), 1);
    assert_eq!(OrderingType::PackedRangeStart.wire(), 2);
    assert_eq!(OrderingType::PackedRangeEnd.wire(), 3);
    assert_eq!(OrderingSkid::NoSkid.wire(), 0);
    assert_eq!(OrderingSkid::TimeNs.wire(), 1);
    assert_eq!(OrderingSkid::EventCount.wire(), 2);
}

#[test]
fn simple_stream_attributes_use_default_ordering() {
    let attr = StreamAttributes::simple(String::from("events"), String::from("domain"));
    assert_eq!(attr.name, "events");
    assert_eq!(attr.domain, "domain");
    assert!(attr.event_scope_path.is_none());
    assert_eq!(attr.order_interleaving, OrderInterleaving::NoInterleaving);
    assert_eq!(attr.ordering_type, OrderingType::Unknown);
    assert_eq!(attr.ordering_skid, OrderingSkid::NoSkid);
    assert_eq!(attr.skid_amount, 0);
}

fn good_stream_reply() -> StreamReply {
    StreamReply { code: ResultCode::Success, stream: StreamHandle { opaque: 21 } }
}

#[test]
fn stream_open_without_entry_is_invalid_argument() {
    let session = SessionHandle { opaque: 11 };
    let attr = StreamAttributes::simple(String::from("events"), String::from("domain"));
    assert_eq!(
        stream_open(&bare_handle(), session, &attr, &good_stream_reply()),
        Err(ResultCode::InvalidArgument)
    );
}

#[test]
fn stream_open_normalizes_null_handle_and_keeps_failures() {
    let session = SessionHandle { opaque: 11 };
    let attr = StreamAttributes::simple(String::from("events"), String::from("domain"));
    let reply = StreamReply { stream: StreamHandle { opaque: 0 }, ..good_stream_reply() };
    assert_eq!(
        stream_open(&loaded_handle(), session, &attr, &reply),
        Err(ResultCode::Failed)
    );
    let reply = StreamReply { code: ResultCode::Failed, ..good_stream_reply() };
    assert_eq!(
        stream_open(&loaded_handle(), session, &attr, &reply),
        Err(ResultCode::Failed)
    );
}

#[test]
fn stream_lifecycle_open_then_close() {
    let interface = loaded_handle();
    let session = SessionHandle { opaque: 11 };
    let opened = stream_open_simple(
        &interface,
        session,
        String::from("events"),
        String::from("domain"),
        &good_stream_reply(),
    )
    .unwrap();
    assert!(!opened.stream.is_null());
    assert_eq!(opened.stream.opaque, 21);
    assert_eq!(opened.attr.name, "events");
    assert_eq!(opened.attr.domain, "domain");
    assert!(opened.attr.event_scope_path.is_none());
    assert_eq!(opened.attr.order_interleaving, OrderInterleaving::NoInterleaving);
    assert_eq!(opened.attr.ordering_type, OrderingType::Unknown);
    assert_eq!(opened.attr.ordering_skid, OrderingSkid::NoSkid);
    assert_eq!(opened.attr.skid_amount, 0);
    assert_eq!(
        stream_close(&interface, opened.stream, ResultCode::Success),
        Ok(())
    );
    assert_eq!(
        stream_close(&bare_handle(), opened.stream, ResultCode::Success),
        Err(ResultCode::InvalidArgument)
    );
}

fn scope_attr() -> EventScopeAttributes {
    EventScopeAttributes { path: String::from("process/threads"), scope_id: 1 }
}

fn schema_attr() -> SchemaAttr {
    SchemaAttr {
        name: String::from("sample"),
        entries: vec![
            SchemaEntry { type_code: 8, flags: 0, name: String::from("time") },
            SchemaEntry { type_code: 8, flags: 0, name: String::from("value") },
        ],
        flags: 0,
        static_size: 16,
        alignment: 8,
        schema_id: 42,
    }
}

fn enum_attr() -> EnumAttr {
    EnumAttr {
        name: String::from("state"),
        entries: vec![
            EnumEntry { name: String::from("idle"), value: 0 },
            EnumEntry { name: String::from("busy"), value: 1 },
        ],
        size: 4,
        schema_id: 43,
    }
}

#[test]
fn registrations_without_entry_are_invalid_argument() {
    let stream = StreamHandle { opaque: 21 };
    assert_eq!(
        event_scope_register(&bare_handle(), stream, &scope_attr(), ResultCode::Success),
        Err(ResultCode::InvalidArgument)
    );
    assert_eq!(
        schema_register(&bare_handle(), stream, &schema_attr(), ResultCode::Success),
        Err(ResultCode::InvalidArgument)
    );
    assert_eq!(
        enum_register(&bare_handle(), stream, &enum_attr(), ResultCode::Success),
        Err(ResultCode::InvalidArgument)
    );
}

#[test]
fn registrations_pass_backend_results_through() {
    let stream = StreamHandle { opaque: 21 };
    assert_eq!(
        event_scope_register(&loaded_handle(), stream, &scope_attr(), ResultCode::Success),
        Ok(())
    );
    assert_eq!(
        schema_register(&loaded_handle(), stream, &schema_attr(), ResultCode::Failed),
        Err(ResultCode::Failed)
    );
    assert_eq!(
        enum_register(&loaded_handle(), stream, &enum_attr(), ResultCode::Success),
        Ok(())
    );
}

#[test]
fn empty_batch_succeeds_without_a_backend_call() {
    let stream = StreamHandle { opaque: 21 };
    let no_events: Vec<PayloadData> = Vec::new();
    assert_eq!(
        event_write(&loaded_handle(), stream, &no_events, ResultCode::Failed),
        Ok(())
    );
}

#[test]
fn event_write_without_entry_is_invalid_argument() {
    let stream = StreamHandle { opaque: 21 };
    let events = vec![PayloadData { schema_id: 42, payload: vec![0u8; 16] }];
    assert_eq!(
        event_write(&bare_handle(), stream, &events, ResultCode::Success),
        Err(ResultCode::InvalidArgument)
    );
}

#[test]
fn registered_schema_write_succeeds_and_rejections_surface() {
    let interface = loaded_handle();
    let stream = StreamHandle { opaque: 21 };
    assert_eq!(
        schema_register(&interface, stream, &schema_attr(), ResultCode::Success),
        Ok(())
    );
    let tagged = vec![PayloadData { schema_id: 42, payload: vec![0u8; 16] }];
    assert_eq!(
        event_write(&interface, stream, &tagged, ResultCode::Success),
        Ok(())
    );
    let untagged = vec![PayloadData { schema_id: 99, payload: vec![0u8; 16] }];
    assert_eq!(
        event_write(&interface, stream, &untagged, ResultCode::Failed),
        Err(ResultCode::Failed)
    );
}
