//! The rpcbind follow-up of a discovery query: a GETADDR reply that names
//! the queried target and a nonzero NFS port is reported as the endpoint,
//! and, where the operation follows up, the query goes on to await an NFS
//! reply from exactly that port, which is reported as the endpoint's
//! derived child. The protocol crate reads the replies and builds the NFS
//! request; what it read is handed in.
use vstd::prelude::*;

use crate::discovery::NativeDiscoveryRow;
use crate::discovery_replies::{
    endpoint_text, identity_fits, nfs_entity, nfs_row, reply_entity, rpcbind_fields, rpcbind_row,
    text_identity, ReplyContext,
};
use crate::discovery_rows::rpcbind_endpoint_admitted;
use crate::results::IpAddress;

verus! {

/// How far an rpcbind query has got.
#[derive(Clone, Debug, PartialEq, Eq)]
pub enum RpcbindStage {
    /// Waiting for the reply to its GETADDR request.
    AwaitingGetAddress,
    /// Waiting for the NFS reply to `request`, sent to the endpoint whose
    /// identity is `parent_identity`, from `port`.
    AwaitingNfs { request: Vec<u8>, parent_identity: String, port: u16 },
}

/// Where an NFS follow-up goes.
#[derive(Clone, Copy, Debug, PartialEq, Eq)]
pub struct NfsFollowUp {
    pub address: IpAddress,
    pub port: u16,
}

/// Takes in the GETADDR reply of an rpcbind query, whose universal address
/// reads as `address` (spelled `address_text`) and `port`. A reply is
/// refused unless it names the queried target and a nonzero port; an
/// admitted one is reported as the endpoint `address:port`. Where the
/// operation follows up, `nfs_request` is the NFS request built for that
/// endpoint: the query then awaits the NFS reply from that port, and the
/// follow-up goes to that endpoint. A refused reply leaves the query as it
/// was.
pub fn rpcbind_address_step(
    stage: &mut RpcbindStage,
    ctx: &ReplyContext,
    address: IpAddress,
    address_text: &String,
    port: u16,
    expected_target: Option<IpAddress>,
    nfs_request: Option<Vec<u8>>,
) -> (r: Result<(NativeDiscoveryRow, Option<NfsFollowUp>), ()>)
    requires
        *old(stage) == RpcbindStage::AwaitingGetAddress,
    ensures
        r is Err ==> *final(stage) == *old(stage),
        !(expected_target == Some(address) && port != 0) ==> r is Err,
        expected_target == Some(address) && port != 0 ==> {
            &&& (r is Ok <==> identity_fits(text_identity(endpoint_text(address_text@, port))))
            &&& r matches Ok((row, follow_up)) ==> {
                &&& reply_entity(
                    *ctx,
                    text_identity(endpoint_text(address_text@, port)),
                    "service"@,
                    rpcbind_fields(port),
                    Ok(row),
                )
                &&& match nfs_request {
                    None => follow_up is None && *final(stage) == *old(stage),
                    Some(request) => {
                        &&& follow_up == Some(NfsFollowUp { address, port })
                        &&& *final(stage) is AwaitingNfs
                        &&& (*final(stage))->request@ == request@
                        &&& (*final(stage))->parent_identity@ == endpoint_text(address_text@, port)
                        &&& (*final(stage))->port == port
                    },
                }
            }
        },
{
    if !rpcbind_endpoint_admitted(address, port, expected_target) {
        return Err(());
    }
    let parent = match rpcbind_row(ctx, address_text, port) {
        Ok(row) => row,
        Err(_) => {
            return Err(());
        },
    };
    match nfs_request {
        None => Ok((parent, None)),
        Some(request) => {
            let parent_identity = crate::discovery_replies::endpoint_string(address_text, port);
            *stage = RpcbindStage::AwaitingNfs { request, parent_identity, port };
            Ok((parent, Some(NfsFollowUp { address, port })))
        },
    }
}

/// The NFS request an rpcbind query awaits a reply to, if it awaits one.
pub fn awaited_nfs_request(stage: &RpcbindStage) -> (r: Option<&Vec<u8>>)
    ensures
        match *stage {
            RpcbindStage::AwaitingGetAddress => r is None,
            RpcbindStage::AwaitingNfs { request, .. } => r == Some(&request),
        },
{
    match stage {
        RpcbindStage::AwaitingGetAddress => None,
        RpcbindStage::AwaitingNfs { request, .. } => Some(request),
    }
}

/// Takes in an NFS reply to an rpcbind query's follow-up, from
/// `source_port`; `catalogue_metadata` is what the NFS probe's parser read
/// of it against the awaited request, `None` where it refused the reply. A
/// reply from any port but the awaited one is refused; an accepted one is
/// reported as the NFS endpoint derived from the rpcbind endpoint.
pub fn rpcbind_nfs_step(
    stage: &RpcbindStage,
    ctx: &ReplyContext,
    source_port: u16,
    catalogue_metadata: Option<Vec<u8>>,
) -> (r: Result<NativeDiscoveryRow, ()>)
    requires
        stage is AwaitingNfs,
    ensures
        match *stage {
            RpcbindStage::AwaitingNfs { parent_identity, port, .. } => {
                &&& source_port != port ==> r is Err
                &&& source_port == port && catalogue_metadata is None ==> r is Err
                &&& source_port == port ==> (catalogue_metadata matches Some(m) ==> nfs_entity(
                    *ctx,
                    port,
                    m@,
                    parent_identity@,
                    r,
                ))
            },
            RpcbindStage::AwaitingGetAddress => false,
        },
{
    match stage {
        RpcbindStage::AwaitingNfs { parent_identity, port, .. } => {
            if source_port != *port {
                return Err(());
            }
            match catalogue_metadata {
                None => Err(()),
                Some(metadata) => nfs_row(ctx, *port, metadata, parent_identity),
            }
        },
        RpcbindStage::AwaitingGetAddress => Err(()),
    }
}

} // verus!
