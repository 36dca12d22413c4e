//! What a transport keeps: its uEntity id and authorities, and its registries of message
//! handlers, applications, request correlation and offered or requested services; with the
//! bookkeeping of starting and stopping an application.
use vstd::prelude::*;
use crate::ids::ClientId;
use crate::status::{UCode, UStatus};
use crate::application_registry::{ApplicationName, ApplicationRegistry};
use crate::message_handler_registry::{MessageHandlerRegistry, GetMessageHandlerError, ClientUsage, tables_wf,
    get_message_handler_post, release_message_handler_post};
use crate::extern_fn_registry::ExternFnRegistry;
use crate::listener_config::{ListenerConfig, config_view};
use crate::rpc_correlation::InMemoryRpcCorrelationRegistry;
use crate::vsomeip_offered_requested::VsomeipOfferedRequested;

verus! {

/// The state of one transport.
pub struct UPTransportVsomeipStorage {
    ue_id: u32,
    local_authority: String,
    remote_authority: String,
    message_handler_registry: MessageHandlerRegistry,
    application_registry: ApplicationRegistry,
    rpc_correlation: InMemoryRpcCorrelationRegistry,
    vsomeip_offered_requested: VsomeipOfferedRequested,
}

impl UPTransportVsomeipStorage {
    /// The uEntity id.
    pub closed spec fn ue_id(&self) -> u32 {
        self.ue_id
    }

    /// The local authority name.
    pub closed spec fn local_authority(&self) -> Seq<char> {
        self.local_authority@
    }

    /// The remote authority name.
    pub closed spec fn remote_authority(&self) -> Seq<char> {
        self.remote_authority@
    }

    /// The application registry.
    pub closed spec fn applications(&self) -> ApplicationRegistry {
        self.application_registry
    }

    /// The message handler registry.
    pub closed spec fn message_handlers(&self) -> MessageHandlerRegistry {
        self.message_handler_registry
    }

    /// The request correlation registry.
    pub closed spec fn rpc_correlation(&self) -> InMemoryRpcCorrelationRegistry {
        self.rpc_correlation
    }

    /// The registry of offered and requested services and events.
    pub closed spec fn offered_requested(&self) -> VsomeipOfferedRequested {
        self.vsomeip_offered_requested
    }

    /// A transport's state with empty registries.
    pub fn new(local_authority: String, remote_authority: String, ue_id: u32) -> (r: UPTransportVsomeipStorage)
        ensures
            r.ue_id() == ue_id,
            r.local_authority() == local_authority@,
            r.remote_authority() == remote_authority@,
            r.applications().view() == Map::<ClientId, Seq<char>>::empty(),
            r.message_handlers().wf(),
            r.message_handlers().configs().is_empty(),
            r.message_handlers().clients().is_empty(),
            r.rpc_correlation().me_correlation().is_empty(),
            r.offered_requested().offered_services().is_empty(),
            r.offered_requested().requested_services().is_empty(),
            r.offered_requested().offered_events().is_empty(),
            r.offered_requested().requested_events().is_empty(),
    {
        UPTransportVsomeipStorage {
            ue_id,
            local_authority,
            remote_authority,
            message_handler_registry: MessageHandlerRegistry::new(),
            application_registry: ApplicationRegistry::new(),
            rpc_correlation: InMemoryRpcCorrelationRegistry::new(),
            vsomeip_offered_requested: VsomeipOfferedRequested::new(),
        }
    }

    /// The local authority name.
    pub fn get_local_authority(&self) -> (r: String)
        ensures
            r@ == self.local_authority(),
    {
        self.local_authority.clone()
    }

    /// The remote authority name.
    pub fn get_remote_authority(&self) -> (r: String)
        ensures
            r@ == self.remote_authority(),
    {
        self.remote_authority.clone()
    }

    /// The uEntity id.
    pub fn get_ue_id(&self) -> (r: u32)
        ensures
            r == self.ue_id(),
    {
        self.ue_id
    }

    /// The application registry.
    pub fn get_application_registry(&self) -> (r: &ApplicationRegistry)
        ensures
            *r == self.applications(),
    {
        &self.application_registry
    }

    /// The message handler registry.
    pub fn get_message_handler_registry(&self) -> (r: &MessageHandlerRegistry)
        ensures
            *r == self.message_handlers(),
    {
        &self.message_handler_registry
    }

    /// Grants a message handler from the transport's registry; see
    /// `MessageHandlerRegistry::get_message_handler`.
    pub fn get_message_handler<T>(
        &mut self,
        pool: &mut ExternFnRegistry<T>,
        client_id: ClientId,
        transport_storage: T,
        listener_config: ListenerConfig,
    ) -> (r: Result<usize, GetMessageHandlerError>)
        requires
            old(self).message_handlers().wf(),
            tables_wf(old(self).message_handlers().tables(&*old(pool))),
        ensures
            final(self).message_handlers().wf(),
            tables_wf(final(self).message_handlers().tables(&*final(pool))),
            get_message_handler_post(
                old(self).message_handlers().tables(&*old(pool)),
                client_id,
                transport_storage,
                config_view(listener_config),
                r,
                final(self).message_handlers().tables(&*final(pool)),
            ),
            final(self).applications() == old(self).applications(),
            final(self).rpc_correlation() == old(self).rpc_correlation(),
            final(self).offered_requested() == old(self).offered_requested(),
    {
        self.message_handler_registry.get_message_handler(pool, client_id, transport_storage, listener_config)
    }

    /// Releases a message handler of the transport's registry; see
    /// `MessageHandlerRegistry::release_message_handler`.
    pub fn release_message_handler<T>(&mut self, pool: &mut ExternFnRegistry<T>, listener_config: ListenerConfig)
        -> (r: Result<ClientUsage, UStatus>)
        requires
            old(self).message_handlers().wf(),
            tables_wf(old(self).message_handlers().tables(&*old(pool))),
        ensures
            final(self).message_handlers().wf(),
            tables_wf(final(self).message_handlers().tables(&*final(pool))),
            release_message_handler_post(
                old(self).message_handlers().tables(&*old(pool)),
                config_view(listener_config),
                r,
                final(self).message_handlers().tables(&*final(pool)),
            ),
            final(self).applications() == old(self).applications(),
            final(self).rpc_correlation() == old(self).rpc_correlation(),
            final(self).offered_requested() == old(self).offered_requested(),
    {
        self.message_handler_registry.release_message_handler(pool, listener_config)
    }

    /// Records the application that was started for a client id, and gives its name back; fails
    /// with already-exists, and changes nothing, when the client id or the name has one.
    pub fn record_started_application(&mut self, client_id: ClientId, app_name: ApplicationName) -> (r: Result<ApplicationName, UStatus>)
        ensures
            final(self).message_handlers() == old(self).message_handlers(),
            final(self).rpc_correlation() == old(self).rpc_correlation(),
            final(self).offered_requested() == old(self).offered_requested(),
            final(self).ue_id() == old(self).ue_id(),
            final(self).local_authority() == old(self).local_authority(),
            final(self).remote_authority() == old(self).remote_authority(),
            match r {
                Ok(name) => name@ == app_name@
                    && !old(self).applications().view().contains_key(client_id)
                    && !old(self).applications().view().contains_value(app_name@)
                    && final(self).applications().view() == old(self).applications().view().insert(client_id, app_name@),
                Err(e) => e.code == UCode::ALREADY_EXISTS
                    && final(self).applications().view() == old(self).applications().view(),
            },
    {
        let name = app_name.clone();
        self.application_registry.insert_client_and_app_name(client_id, app_name)?;
        Ok(name)
    }

    /// Removes the application of a client id before it is stopped, and gives its name back;
    /// fails with not-found when the client id has none.
    pub fn release_application(&mut self, client_id: ClientId) -> (r: Result<ApplicationName, UStatus>)
        ensures
            final(self).message_handlers() == old(self).message_handlers(),
            final(self).rpc_correlation() == old(self).rpc_correlation(),
            final(self).offered_requested() == old(self).offered_requested(),
            final(self).ue_id() == old(self).ue_id(),
            final(self).local_authority() == old(self).local_authority(),
            final(self).remote_authority() == old(self).remote_authority(),
            final(self).applications().view() == old(self).applications().view().remove(client_id),
            match r {
                Ok(name) => old(self).applications().view().contains_key(client_id)
                    && name@ == old(self).applications().view()[client_id],
                Err(e) => e.code == UCode::NOT_FOUND && !old(self).applications().view().contains_key(client_id),
            },
    {
        match self.application_registry.remove_app_name_for_client_id(client_id) {
            Some(name) => Ok(name),
            None => {
                assert(self.applications().view() =~= old(self).applications().view().remove(client_id));
                Err(UStatus::fail_with_code_and_number(UCode::NOT_FOUND, "Unable to find app_name for client_id: ", client_id as u64, ""))
            },
        }
    }
}

} // verus!
