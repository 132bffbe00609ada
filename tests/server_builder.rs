use server_builder::builder::{
    iox2_port_factory_server_builder_create, iox2_port_factory_server_builder_set_allocation_strategy,
    iox2_port_factory_server_builder_set_initial_max_slice_len,
    iox2_port_factory_server_builder_set_max_loaned_responses_per_request,
    iox2_port_factory_server_builder_t, iox2_port_factory_server_builder_take,
    iox2_port_factory_server_builder_unable_to_deliver_strategy, iox2_server_publish_creation,
    iox2_server_t, iox2_port_factory_server_builder_storage_t, ServerStorage,
};
use server_builder::config::{
    iox2_allocation_strategy_e, iox2_service_type_e, iox2_unable_to_deliver_strategy_e,
    PortFactoryServerBuilderUnion, ServerConfig,
};
use server_builder::error::{
    iox2_server_create_error_e, iox2_server_create_error_string, ServerCreateError,
};
use server_builder::IOX2_OK;

fn defaults() -> ServerConfig {
    ServerConfig {
        allocation_strategy: iox2_allocation_strategy_e::STATIC,
        initial_max_slice_len: 1,
        max_loaned_responses_per_request: 2,
        unable_to_deliver_strategy: iox2_unable_to_deliver_strategy_e::BLOCK,
    }
}

fn ipc_builder() -> iox2_port_factory_server_builder_t {
    iox2_port_factory_server_builder_t::new(
        iox2_service_type_e::IPC,
        PortFactoryServerBuilderUnion::new_ipc(defaults()),
    )
}

fn local_builder() -> iox2_port_factory_server_builder_t {
    iox2_port_factory_server_builder_t::new(
        iox2_service_type_e::LOCAL,
        PortFactoryServerBuilderUnion::new_local(defaults()),
    )
}

fn configured_ipc_builder() -> iox2_port_factory_server_builder_t {
    let mut h = ipc_builder();
    iox2_port_factory_server_builder_set_initial_max_slice_len(&mut h, 128);
    iox2_port_factory_server_builder_set_max_loaned_responses_per_request(&mut h, 4);
    iox2_port_factory_server_builder_unable_to_deliver_strategy(
        &mut h,
        iox2_unable_to_deliver_strategy_e::DISCARD_SAMPLE,
    );
    h
}

#[test]
fn create_with_capacity_yields_ipc_server() {
    let mut h = configured_ipc_builder();
    let mut out: Option<iox2_server_t> = None;
    let r = iox2_port_factory_server_builder_create(&mut h, ServerStorage::Heap, Ok(()), &mut out);
    assert_eq!(r, IOX2_OK);
    let server = out.unwrap();
    assert_eq!(server.service_type, iox2_service_type_e::IPC);
    assert_eq!(server.config.initial_max_slice_len, 128);
    assert_eq!(server.config.max_loaned_responses_per_request, 4);
    assert_eq!(
        server.config.unable_to_deliver_strategy,
        iox2_unable_to_deliver_strategy_e::DISCARD_SAMPLE
    );
    assert_eq!(server.config.allocation_strategy, iox2_allocation_strategy_e::STATIC);
    assert_eq!(server.storage, ServerStorage::Heap);
    assert!(!h.live());
}

#[test]
fn create_at_capacity_leaves_destination_untouched() {
    let mut h = configured_ipc_builder();
    let mut out: Option<iox2_server_t> = None;
    let r = iox2_port_factory_server_builder_create(
        &mut h,
        ServerStorage::Heap,
        Err(ServerCreateError::ExceedsMaxSupportedServers),
        &mut out,
    );
    assert_eq!(r, 1);
    assert_eq!(r, iox2_server_create_error_e::EXCEEDS_MAX_SUPPORTED_SERVERS.as_c_int());
    assert!(out.is_none());
    assert!(!h.live());
}

#[test]
fn create_failure_keeps_previous_destination() {
    let mut h = local_builder();
    let previous = iox2_server_t {
        service_type: iox2_service_type_e::IPC,
        config: defaults(),
        storage: ServerStorage::CallerProvided,
    };
    let mut out = Some(previous);
    let r = iox2_port_factory_server_builder_create(
        &mut h,
        ServerStorage::CallerProvided,
        Err(ServerCreateError::UnableToCreateDataSegment),
        &mut out,
    );
    assert_eq!(r, 2);
    assert_eq!(out, Some(previous));
}

#[test]
fn create_local_into_caller_storage() {
    let mut h = local_builder();
    iox2_port_factory_server_builder_set_allocation_strategy(
        &mut h,
        iox2_allocation_strategy_e::POWER_OF_TWO,
    );
    let mut out: Option<iox2_server_t> = None;
    let r = iox2_port_factory_server_builder_create(
        &mut h,
        ServerStorage::CallerProvided,
        Ok(()),
        &mut out,
    );
    assert_eq!(r, 0);
    let server = out.unwrap();
    assert_eq!(server.service_type, iox2_service_type_e::LOCAL);
    assert_eq!(server.config.allocation_strategy, iox2_allocation_strategy_e::POWER_OF_TWO);
    assert_eq!(server.storage, ServerStorage::CallerProvided);
    assert_eq!(h.service_type(), iox2_service_type_e::LOCAL);
}

#[test]
fn configuration_keeps_locality() {
    let mut h = local_builder();
    iox2_port_factory_server_builder_set_initial_max_slice_len(&mut h, 64);
    iox2_port_factory_server_builder_set_allocation_strategy(&mut h, iox2_allocation_strategy_e::BEST_FIT);
    iox2_port_factory_server_builder_set_max_loaned_responses_per_request(&mut h, 9);
    iox2_port_factory_server_builder_unable_to_deliver_strategy(&mut h, iox2_unable_to_deliver_strategy_e::BLOCK);
    assert_eq!(h.service_type(), iox2_service_type_e::LOCAL);
    assert_eq!(h.peek().unwrap().service_type(), iox2_service_type_e::LOCAL);
    assert!(h.live());
}

#[test]
fn two_settings_in_a_row_are_both_kept() {
    let mut h = ipc_builder();
    iox2_port_factory_server_builder_set_initial_max_slice_len(&mut h, 4096);
    iox2_port_factory_server_builder_set_allocation_strategy(&mut h, iox2_allocation_strategy_e::BEST_FIT);
    let c = h.peek().unwrap().config();
    assert_eq!(c.initial_max_slice_len, 4096);
    assert_eq!(c.allocation_strategy, iox2_allocation_strategy_e::BEST_FIT);
    assert_eq!(c.max_loaned_responses_per_request, 2);
    assert_eq!(c.unable_to_deliver_strategy, iox2_unable_to_deliver_strategy_e::BLOCK);
}

#[test]
fn same_setting_twice_keeps_the_later_value() {
    let mut h = ipc_builder();
    iox2_port_factory_server_builder_set_initial_max_slice_len(&mut h, 10);
    iox2_port_factory_server_builder_set_initial_max_slice_len(&mut h, 20);
    assert_eq!(h.peek().unwrap().config().initial_max_slice_len, 20);
}

#[test]
fn zero_loans_per_request_is_raised_to_one() {
    let mut h = ipc_builder();
    iox2_port_factory_server_builder_set_max_loaned_responses_per_request(&mut h, 0);
    assert_eq!(h.peek().unwrap().config().max_loaned_responses_per_request, 1);
}

#[test]
fn largest_slice_len_is_kept() {
    let mut h = ipc_builder();
    iox2_port_factory_server_builder_set_initial_max_slice_len(&mut h, usize::MAX);
    iox2_port_factory_server_builder_set_max_loaned_responses_per_request(&mut h, usize::MAX);
    let c = h.peek().unwrap().config();
    assert_eq!(c.initial_max_slice_len, usize::MAX);
    assert_eq!(c.max_loaned_responses_per_request, usize::MAX);
}

#[test]
fn take_consumes_the_builder() {
    let mut h = configured_ipc_builder();
    let b = iox2_port_factory_server_builder_take(&mut h);
    assert_eq!(b.service_type(), iox2_service_type_e::IPC);
    assert_eq!(b.config().initial_max_slice_len, 128);
    assert!(!h.live());
    assert!(h.peek().is_none());
    let mut out: Option<iox2_server_t> = None;
    let r = iox2_server_publish_creation(b, ServerStorage::Heap, Ok(()), &mut out);
    assert_eq!(r, IOX2_OK);
    assert_eq!(out.unwrap().config.max_loaned_responses_per_request, 4);
}

#[test]
fn init_reuses_a_consumed_object() {
    let mut h = ipc_builder();
    let _ = iox2_port_factory_server_builder_take(&mut h);
    assert!(!h.live());
    h.init(iox2_service_type_e::LOCAL, PortFactoryServerBuilderUnion::new_local(defaults()));
    assert!(h.live());
    assert_eq!(h.service_type(), iox2_service_type_e::LOCAL);
}

#[test]
fn storage_cell_take_empties_it() {
    let mut cell = iox2_port_factory_server_builder_storage_t::new();
    assert!(!cell.is_present());
    cell.init(PortFactoryServerBuilderUnion::new_ipc(defaults()));
    assert!(cell.is_present());
    let v = cell.take();
    assert_eq!(v, PortFactoryServerBuilderUnion::new_ipc(defaults()));
    assert!(!cell.is_present());
}

#[test]
fn error_codes_follow_the_success_value() {
    assert_eq!(ServerCreateError::ExceedsMaxSupportedServers.into_c_int(), 1);
    assert_eq!(ServerCreateError::UnableToCreateDataSegment.into_c_int(), 2);
    assert_eq!(
        ServerCreateError::UnableToCreateDataSegment.as_error_code(),
        iox2_server_create_error_e::UNABLE_TO_CREATE_DATA_SEGMENT
    );
}

#[test]
fn error_strings_are_nul_terminated_and_stable() {
    let a = iox2_server_create_error_string(iox2_server_create_error_e::EXCEEDS_MAX_SUPPORTED_SERVERS);
    let b = iox2_server_create_error_string(iox2_server_create_error_e::UNABLE_TO_CREATE_DATA_SEGMENT);
    assert_eq!(a, "exceeds max supported servers\0");
    assert_eq!(b, "unable to create data segment\0");
    for s in [a, b] {
        assert!(s.len() > 1);
        assert!(s.ends_with('\0'));
        assert!(!s[..s.len() - 1].contains('\0'));
    }
    let again = iox2_server_create_error_string(iox2_server_create_error_e::EXCEEDS_MAX_SUPPORTED_SERVERS);
    assert_eq!(a, again);
}
