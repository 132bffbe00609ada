#![allow(non_camel_case_types)]

use vstd::prelude::*;

use crate::config::{
    iox2_allocation_strategy_e, iox2_service_type_e, iox2_unable_to_deliver_strategy_e, ConfigOp,
    PortFactoryServerBuilderUnion, ServerConfig,
};
use crate::error::{error_code_of, error_code_value, iox2_server_create_error_e, ServerCreateError};
use crate::IOX2_OK;

verus! {

/// The cell that holds a server builder: occupied by exactly one value, or
/// empty once that value has been taken out.
pub struct iox2_port_factory_server_builder_storage_t {
    internal: Option<PortFactoryServerBuilderUnion>,
}

impl View for iox2_port_factory_server_builder_storage_t {
    type V = Option<PortFactoryServerBuilderUnion>;

    closed spec fn view(&self) -> Option<PortFactoryServerBuilderUnion> {
        self.internal
    }
}

impl iox2_port_factory_server_builder_storage_t {
    /// An empty cell.
    pub fn new() -> (r: Self)
        ensures
            r@ is None,
    {
        iox2_port_factory_server_builder_storage_t { internal: None }
    }

    /// Installs `value`, replacing whatever the cell held.
    pub fn init(&mut self, value: PortFactoryServerBuilderUnion)
        ensures
            final(self)@ == Some(value),
    {
        self.internal = Some(value);
    }

    /// Whether the cell holds a value.
    pub fn is_present(&self) -> (r: bool)
        ensures
            r == self@ is Some,
    {
        self.internal.is_some()
    }

    /// Moves the value out of the cell, leaving it empty.
    pub fn take(&mut self) -> (r: PortFactoryServerBuilderUnion)
        requires
            old(self)@ is Some,
        ensures
            Some(r) == old(self)@,
            final(self)@ is None,
    {
        self.internal.take().unwrap()
    }
}

/// A server builder object as the foreign caller owns it: the locality tag,
/// the cell with the builder, and whether the object's storage has been
/// released.
pub struct iox2_port_factory_server_builder_t {
    service_type: iox2_service_type_e,
    value: iox2_port_factory_server_builder_storage_t,
    released: bool,
}

impl iox2_port_factory_server_builder_t {
    /// The locality tag.
    pub closed spec fn locality(&self) -> iox2_service_type_e {
        self.service_type
    }

    /// The builder in the cell, if any.
    pub closed spec fn contents(&self) -> Option<PortFactoryServerBuilderUnion> {
        self.value@
    }

    /// Whether the object's storage has been released.
    pub closed spec fn is_released(&self) -> bool {
        self.released
    }

    /// The tag matches the builder in the cell, and released storage holds
    /// nothing.
    pub open spec fn wf(&self) -> bool {
        &&& (self.contents() matches Some(u) ==> u.locality() == self.locality())
        &&& (self.is_released() ==> self.contents() is None)
    }

    /// Whether the object can still be configured or consumed.
    pub open spec fn is_live(&self) -> bool {
        !self.is_released() && self.contents() is Some
    }

    /// The builder of a live object.
    pub open spec fn builder(&self) -> PortFactoryServerBuilderUnion {
        self.contents()->Some_0
    }

    /// A live object of the given locality that holds `value`.
    pub fn new(service_type: iox2_service_type_e, value: PortFactoryServerBuilderUnion) -> (r: Self)
        requires
            value.locality() == service_type,
        ensures
            r.wf(),
            r.is_live(),
            r.locality() == service_type,
            r.builder() == value,
    {
        let mut cell = iox2_port_factory_server_builder_storage_t::new();
        cell.init(value);
        iox2_port_factory_server_builder_t { service_type, value: cell, released: false }
    }

    /// Re-initialises the object with a new builder of the given locality.
    pub fn init(&mut self, service_type: iox2_service_type_e, value: PortFactoryServerBuilderUnion)
        requires
            value.locality() == service_type,
        ensures
            final(self).wf(),
            final(self).is_live(),
            final(self).locality() == service_type,
            final(self).builder() == value,
    {
        self.service_type = service_type;
        self.value.init(value);
        self.released = false;
    }

    /// The locality tag.
    pub fn service_type(&self) -> (r: iox2_service_type_e)
        ensures
            r == self.locality(),
    {
        self.service_type
    }

    /// A copy of the builder in the cell, if any.
    pub fn peek(&self) -> (r: Option<PortFactoryServerBuilderUnion>)
        ensures
            r == self.contents(),
    {
        self.value.internal
    }

    /// Whether the object can still be configured or consumed.
    pub fn live(&self) -> (r: bool)
        ensures
            r == self.is_live(),
    {
        !self.released && self.value.is_present()
    }

    /// Takes the builder out, applies one configuration call to it, and puts
    /// the result back under the same tag.
    fn apply_op(&mut self, op: ConfigOp)
        requires
            old(self).wf(),
            old(self).is_live(),
        ensures
            final(self).wf(),
            final(self).is_live(),
            final(self).locality() == old(self).locality(),
            final(self).builder() == old(self).builder().apply(op),
    {
        let builder = self.value.take();
        let updated = match op {
            ConfigOp::AllocationStrategy(a) => builder.allocation_strategy(a),
            ConfigOp::InitialMaxSliceLen(n) => builder.initial_max_slice_len(n),
            ConfigOp::MaxLoanedResponsesPerRequest(n) => builder.max_loaned_responses_per_request(n),
            ConfigOp::UnableToDeliverStrategy(s) => builder.unable_to_deliver_strategy(s),
        };
        self.value.init(updated);
    }
}

/// Where the storage of a created server comes from, which decides how it is
/// released: storage that the caller provided is left alone, storage that
/// this layer allocated is freed.
#[derive(Debug, Clone, Copy, PartialEq, Eq, Structural)]
pub enum ServerStorage {
    CallerProvided,
    Heap,
}

/// A created server: its locality, the settings it was built with, and where
/// it is stored.
#[derive(Debug, Clone, Copy, PartialEq, Eq, Structural)]
pub struct iox2_server_t {
    pub service_type: iox2_service_type_e,
    pub config: ServerConfig,
    pub storage: ServerStorage,
}

/// Sets the allocation strategy of the builder.
pub fn iox2_port_factory_server_builder_set_allocation_strategy(
    port_factory_handle: &mut iox2_port_factory_server_builder_t,
    value: iox2_allocation_strategy_e,
)
    requires
        old(port_factory_handle).wf(),
        old(port_factory_handle).is_live(),
    ensures
        final(port_factory_handle).wf(),
        final(port_factory_handle).is_live(),
        final(port_factory_handle).locality() == old(port_factory_handle).locality(),
        final(port_factory_handle).builder() == old(port_factory_handle).builder().apply(
            ConfigOp::AllocationStrategy(value),
        ),
{
    port_factory_handle.apply_op(ConfigOp::AllocationStrategy(value));
}

/// Sets the initial maximum slice length of the builder.
pub fn iox2_port_factory_server_builder_set_initial_max_slice_len(
    port_factory_handle: &mut iox2_port_factory_server_builder_t,
    value: usize,
)
    requires
        old(port_factory_handle).wf(),
        old(port_factory_handle).is_live(),
    ensures
        final(port_factory_handle).wf(),
        final(port_factory_handle).is_live(),
        final(port_factory_handle).locality() == old(port_factory_handle).locality(),
        final(port_factory_handle).builder() == old(port_factory_handle).builder().apply(
            ConfigOp::InitialMaxSliceLen(value),
        ),
{
    port_factory_handle.apply_op(ConfigOp::InitialMaxSliceLen(value));
}

/// Sets how many responses the server may loan per request.
pub fn iox2_port_factory_server_builder_set_max_loaned_responses_per_request(
    port_factory_handle: &mut iox2_port_factory_server_builder_t,
    value: usize,
)
    requires
        old(port_factory_handle).wf(),
        old(port_factory_handle).is_live(),
    ensures
        final(port_factory_handle).wf(),
        final(port_factory_handle).is_live(),
        final(port_factory_handle).locality() == old(port_factory_handle).locality(),
        final(port_factory_handle).builder() == old(port_factory_handle).builder().apply(
            ConfigOp::MaxLoanedResponsesPerRequest(value),
        ),
{
    port_factory_handle.apply_op(ConfigOp::MaxLoanedResponsesPerRequest(value));
}

/// Sets what the server does with a response that cannot be delivered.
pub fn iox2_port_factory_server_builder_unable_to_deliver_strategy(
    port_factory_handle: &mut iox2_port_factory_server_builder_t,
    value: iox2_unable_to_deliver_strategy_e,
)
    requires
        old(port_factory_handle).wf(),
        old(port_factory_handle).is_live(),
    ensures
        final(port_factory_handle).wf(),
        final(port_factory_handle).is_live(),
        final(port_factory_handle).locality() == old(port_factory_handle).locality(),
        final(port_factory_handle).builder() == old(port_factory_handle).builder().apply(
            ConfigOp::UnableToDeliverStrategy(value),
        ),
{
    port_factory_handle.apply_op(ConfigOp::UnableToDeliverStrategy(value));
}

/// The server that a successful creation yields from `builder`.
pub open spec fn created_server(builder: PortFactoryServerBuilderUnion, storage: ServerStorage) -> iox2_server_t {
    iox2_server_t { service_type: builder.locality(), config: builder.settings(), storage }
}

/// Consumes the builder object: takes the builder out of its cell and
/// releases the object's storage. The object cannot be used afterwards.
pub fn iox2_port_factory_server_builder_take(
    port_factory_handle: &mut iox2_port_factory_server_builder_t,
) -> (r: PortFactoryServerBuilderUnion)
    requires
        old(port_factory_handle).wf(),
        old(port_factory_handle).is_live(),
    ensures
        r == old(port_factory_handle).builder(),
        r.locality() == old(port_factory_handle).locality(),
        final(port_factory_handle).wf(),
        final(port_factory_handle).is_released(),
        !final(port_factory_handle).is_live(),
        final(port_factory_handle).locality() == old(port_factory_handle).locality(),
{
    let builder = port_factory_handle.value.take();
    port_factory_handle.released = true;
    builder
}

/// Completes the creation of a server from a consumed builder, given the
/// outcome of the native creation. On success the server, tagged with the
/// builder's locality, is published through `handle_ptr` and the success
/// value is returned; on failure `handle_ptr` is left as it was and the
/// failure's code is returned.
pub fn iox2_server_publish_creation(
    builder: PortFactoryServerBuilderUnion,
    storage: ServerStorage,
    creation: Result<(), ServerCreateError>,
    handle_ptr: &mut Option<iox2_server_t>,
) -> (r: i32)
    ensures
        creation is Ok <==> r == IOX2_OK,
        match creation {
            Ok(_) => *final(handle_ptr) == Some(created_server(builder, storage)),
            Err(e) => {
                &&& r as int == error_code_value(error_code_of(e))
                &&& *final(handle_ptr) == *old(handle_ptr)
            },
        },
{
    match creation {
        Ok(()) => {
            let service_type = builder.service_type();
            let config = builder.config();
            *handle_ptr = Some(iox2_server_t { service_type, config, storage });
            IOX2_OK
        },
        Err(error) => error.into_c_int(),
    }
}

/// Creates a server and consumes the builder object, given the outcome of
/// the native creation. The object's storage is released whatever the
/// outcome, and the object cannot be used afterwards. On success the server,
/// tagged with the builder's locality and carrying its settings, is
/// published through `handle_ptr` and the success value is returned; on
/// failure `handle_ptr` is left as it was and the failure's code is returned.
pub fn iox2_port_factory_server_builder_create(
    port_factory_handle: &mut iox2_port_factory_server_builder_t,
    storage: ServerStorage,
    creation: Result<(), ServerCreateError>,
    handle_ptr: &mut Option<iox2_server_t>,
) -> (r: i32)
    requires
        old(port_factory_handle).wf(),
        old(port_factory_handle).is_live(),
    ensures
        final(port_factory_handle).wf(),
        final(port_factory_handle).is_released(),
        !final(port_factory_handle).is_live(),
        final(port_factory_handle).locality() == old(port_factory_handle).locality(),
        creation is Ok <==> r == IOX2_OK,
        match creation {
            Ok(_) => {
                &&& *final(handle_ptr) == Some(
                    created_server(old(port_factory_handle).builder(), storage),
                )
                &&& final(handle_ptr)->Some_0.service_type == old(port_factory_handle).locality()
            },
            Err(e) => {
                &&& r as int == error_code_value(error_code_of(e))
                &&& *final(handle_ptr) == *old(handle_ptr)
            },
        },
        creation == Err::<(), ServerCreateError>(ServerCreateError::ExceedsMaxSupportedServers)
            ==> r as int == error_code_value(iox2_server_create_error_e::EXCEEDS_MAX_SUPPORTED_SERVERS)
            && *final(handle_ptr) == *old(handle_ptr),
{
    let builder = iox2_port_factory_server_builder_take(port_factory_handle);
    iox2_server_publish_creation(builder, storage, creation, handle_ptr)
}

/// Once consumed, a builder object admits no further operation: every
/// configuration call and the creation call ask for a live object, and a
/// consumed one is not live, so neither stale data nor a second server can
/// come out of it.
pub proof fn lemma_consumed_handle_rejected(h: iox2_port_factory_server_builder_t)
    requires
        h.wf(),
        h.is_released(),
    ensures
        !h.is_live(),
        h.contents() is None,
{
}

} // verus!
