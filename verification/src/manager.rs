use vstd::prelude::*;

use crate::channel::MinKNOWChannel;
use crate::endpoint::Endpoint;
use crate::errors::ChannelError;
use crate::messages::{
    position_views, FlowCellPositionInfo, FlowCellPositionInfoView, FlowCellPositionsResponse,
    FlowCellPositionsResponseView,
};
use crate::request::{clone_token, token_view};
use crate::tls::pem_cert_parses;

verus! {

/// The mathematical value of a [`FlowCellPosition`].
pub ghost struct FlowCellPositionView {
    pub host: Seq<char>,
    pub token: Option<Seq<char>>,
    pub description: FlowCellPositionInfoView,
}

/// A discovered flow cell position: the endpoint descriptor from which a
/// direct per-position channel can be derived. It remembers the host it was
/// discovered on, the token the discovering channel held at the time, and
/// the manager's description of the position.
///
/// Positions normally come from listing them through a manager channel
/// rather than being constructed directly.
#[derive(Debug)]
pub struct FlowCellPosition {
    host: String,
    token: Option<String>,
    pub description: FlowCellPositionInfo,
}

impl View for FlowCellPosition {
    type V = FlowCellPositionView;

    closed spec fn view(&self) -> FlowCellPositionView {
        FlowCellPositionView {
            host: self.host@,
            token: token_view(self.token),
            description: self.description@,
        }
    }
}

impl FlowCellPosition {
    /// Bundle a discovered position from the host it was reached through,
    /// the token inherited from the discovering channel, and the manager's
    /// description.
    pub fn new(host: String, token: Option<String>, description: FlowCellPositionInfo) -> (r:
        FlowCellPosition)
        ensures
            r@ == (FlowCellPositionView {
                host: host@,
                token: token_view(token),
                description: description@,
            }),
    {
        FlowCellPosition { host, token, description }
    }

    /// The host this position was discovered on.
    pub fn host(&self) -> (r: &String)
        ensures
            r@ == self@.host,
    {
        &self.host
    }

    /// The token this position inherited, if any.
    pub fn inherited_token(&self) -> (r: &Option<String>)
        ensures
            token_view(*r) == self@.token,
    {
        &self.token
    }

    /// Endpoint derivation: build a new, independent channel straight to
    /// this position's own host and secure port — `https` scheme, the same
    /// trust anchor the caller already holds — and carry the inherited
    /// token over onto the new channel before returning it. The new
    /// channel's base authority is this position's `host:port`, independent
    /// of whatever endpoint it was discovered through. The certificate must
    /// fit a C `int`, the limit openssl's parser asserts.
    pub fn channel(&self, certificate: Vec<u8>) -> (r: Result<MinKNOWChannel, ChannelError>)
        requires
            self@.description.rpc_ports is Some,
            certificate@.len() <= 0x7fff_ffff,
        ensures
            (r matches Err(e) && e == ChannelError::CertificateError) <==> !pem_cert_parses(
                certificate@,
            ),
            r matches Err(e) ==> (e == ChannelError::CertificateError || e
                == ChannelError::TransportInitError),
            r matches Ok(c) ==> (self@.description.rpc_ports matches Some(ports)
                && c@.endpoint.scheme == "https"@ && c@.endpoint.host == self@.host
                && c@.endpoint.port == ports.secure && c@.token == self@.token && c@.certificate
                == certificate@),
    {
        let port = match &self.description.rpc_ports {
            Option::Some(ports) => ports.secure,
            Option::None => unreached(),
        };
        let scheme: String = "https".to_owned();
        let endpoint = Endpoint::new(scheme, self.host.clone(), port);
        let mut channel = match MinKNOWChannel::new(certificate, endpoint) {
            Ok(channel) => channel,
            Err(e) => {
                return Err(e);
            },
        };
        match &self.token {
            Option::Some(token) => channel.set_token(token.clone()),
            Option::None => {},
        }
        Ok(channel)
    }
}

/// The views of a sequence of response chunks.
pub open spec fn chunk_views(cs: Seq<FlowCellPositionsResponse>) -> Seq<
    FlowCellPositionsResponseView,
> {
    cs.map_values(|c: FlowCellPositionsResponse| c@)
}

/// All positions of a sequence of streamed response chunks, concatenated in
/// arrival order.
pub open spec fn flatten_chunks(chunks: Seq<FlowCellPositionsResponseView>) -> Seq<
    FlowCellPositionInfoView,
>
    decreases chunks.len(),
{
    if chunks.len() == 0 {
        Seq::empty()
    } else {
        flatten_chunks(chunks.drop_last()) + chunks.last().positions
    }
}

/// The pure half of listing flow cell positions: concatenate the streamed
/// response chunks in order, and wrap every position with the host it was
/// discovered on and the token the channel held at the time of the call, so
/// each one can later derive its own channel.
pub fn collect_flow_cell_positions(
    chunks: &Vec<FlowCellPositionsResponse>,
    host: &String,
    token: &Option<String>,
) -> (r: Vec<FlowCellPosition>)
    ensures
        r@.len() == flatten_chunks(chunk_views(chunks@)).len(),
        forall|k: int|
            0 <= k < r@.len() ==> {
                &&& (#[trigger] r@[k])@.host == host@
                &&& r@[k]@.token == token_view(*token)
                &&& r@[k]@.description == flatten_chunks(chunk_views(chunks@))[k]
            },
{
    let ghost cviews = chunk_views(chunks@);
    let mut out: Vec<FlowCellPosition> = Vec::new();
    let mut i: usize = 0;
    while i < chunks.len()
        invariant
            i <= chunks@.len(),
            cviews == chunk_views(chunks@),
            out@.len() == flatten_chunks(cviews.take(i as int)).len(),
            forall|k: int|
                0 <= k < out@.len() ==> {
                    &&& (#[trigger] out@[k])@.host == host@
                    &&& out@[k]@.token == token_view(*token)
                    &&& out@[k]@.description == flatten_chunks(cviews.take(i as int))[k]
                },
        decreases chunks@.len() - i,
    {
        let ghost flat = flatten_chunks(cviews.take(i as int));
        let chunk = &chunks[i];
        let mut j: usize = 0;
        while j < chunk.positions.len()
            invariant
                i < chunks@.len(),
                j <= chunk.positions@.len(),
                chunk == chunks@[i as int],
                cviews == chunk_views(chunks@),
                flat == flatten_chunks(cviews.take(i as int)),
                out@.len() == flat.len() + j,
                forall|k: int|
                    0 <= k < out@.len() ==> {
                        &&& (#[trigger] out@[k])@.host == host@
                        &&& out@[k]@.token == token_view(*token)
                    },
                forall|k: int|
                    0 <= k < flat.len() ==> (#[trigger] out@[k])@.description == flat[k],
                forall|k: int|
                    flat.len() <= k < out@.len() ==> (#[trigger] out@[k])@.description
                        == chunk.positions@[k - flat.len()]@,
            decreases chunk.positions@.len() - j,
        {
            let position = &chunk.positions[j];
            out.push(
                FlowCellPosition {
                    host: host.clone(),
                    token: clone_token(token),
                    description: position.clone(),
                },
            );
            j = j + 1;
        }
        proof {
            assert(cviews.take(i as int + 1).drop_last() =~= cviews.take(i as int));
            assert(cviews.take(i as int + 1).last() == chunks@[i as int]@);
            assert(flatten_chunks(cviews.take(i as int + 1)) == flat
                + chunks@[i as int]@.positions);
            assert(chunks@[i as int]@.positions == position_views(chunks@[i as int].positions@));
            assert forall|k: int|
                0 <= k < out@.len() implies (#[trigger] out@[k])@.description == flatten_chunks(
                cviews.take(i as int + 1),
            )[k] by {
                if k >= flat.len() {
                    assert(out@[k]@.description == chunks@[i as int].positions@[k - flat.len()]@);
                }
            }
        }
        i = i + 1;
    }
    proof {
        assert(cviews.take(chunks@.len() as int) =~= cviews);
    }
    out
}

} // verus!
