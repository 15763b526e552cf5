//! Deribit JSON-RPC requests.
use vstd::prelude::*;
use crate::text::{clone_all, owned};

verus! {

/// A Deribit JSON-RPC 2.0 request.
#[derive(Debug, Clone)]
pub struct DeribitWssMessage {
    pub jsonrpc: String,
    pub method: String,
    pub params: Option<DeribitParams>,
    pub id: u64,
}

/// The parameters of a request: either channel names or a heartbeat interval
/// (written without a tag: only the inner field appears on the wire).
#[derive(Debug, Clone)]
pub enum DeribitParams {
    Channels { channels: Vec<String> },
    Heartbeat { interval: u32 },
}

/// What the parameters of a request hold.
pub enum DeribitParamsView {
    Channels { channels: Seq<Seq<char>> },
    Heartbeat { interval: u32 },
}

/// What a Deribit request holds.
pub struct DeribitRequestView {
    pub jsonrpc: Seq<char>,
    pub method: Seq<char>,
    pub params: Option<DeribitParamsView>,
    pub id: u64,
}

impl View for DeribitParams {
    type V = DeribitParamsView;

    open spec fn view(&self) -> DeribitParamsView {
        match self {
            DeribitParams::Channels { channels } => DeribitParamsView::Channels { channels: channels.deep_view() },
            DeribitParams::Heartbeat { interval } => DeribitParamsView::Heartbeat { interval: *interval },
        }
    }
}

impl View for DeribitWssMessage {
    type V = DeribitRequestView;

    open spec fn view(&self) -> DeribitRequestView {
        DeribitRequestView {
            jsonrpc: self.jsonrpc@,
            method: self.method@,
            params: match self.params {
                Some(p) => Some(p@),
                None => None,
            },
            id: self.id,
        }
    }
}

/// The JSON-RPC 2.0 request with the given method, parameters and id.
pub open spec fn deribit_view(method: Seq<char>, params: Option<DeribitParamsView>, id: u64) -> DeribitRequestView {
    DeribitRequestView { jsonrpc: "2.0"@, method, params, id }
}

impl DeribitWssMessage {
    fn channels_request(method: &str, channels: &[String], id: u64) -> (r: Self)
        ensures
            r@ == deribit_view(method@, Some(DeribitParamsView::Channels { channels: channels.deep_view() }), id),
    {
        let list = clone_all(channels);
        let r = DeribitWssMessage {
            jsonrpc: owned("2.0"),
            method: owned(method),
            params: Some(DeribitParams::Channels { channels: list }),
            id,
        };
        r
    }

    pub fn subscribe(channels: &[String], id: u64) -> (r: Self)
        ensures
            r@ == deribit_view("public/subscribe"@, Some(DeribitParamsView::Channels { channels: channels.deep_view() }), id),
    {
        Self::channels_request("public/subscribe", channels, id)
    }

    pub fn unsubscribe(channels: &[String], id: u64) -> (r: Self)
        ensures
            r@ == deribit_view("public/unsubscribe"@, Some(DeribitParamsView::Channels { channels: channels.deep_view() }), id),
    {
        Self::channels_request("public/unsubscribe", channels, id)
    }

    pub fn set_heartbeat(interval: u32, id: u64) -> (r: Self)
        ensures
            r@ == deribit_view("public/set_heartbeat"@, Some(DeribitParamsView::Heartbeat { interval }), id),
    {
        DeribitWssMessage {
            jsonrpc: owned("2.0"),
            method: owned("public/set_heartbeat"),
            params: Some(DeribitParams::Heartbeat { interval }),
            id,
        }
    }

    /// The `public/test` request, which Deribit answers and which keeps a
    /// connection alive.
    pub fn test(id: u64) -> (r: Self)
        ensures
            r@ == deribit_view("public/test"@, None, id),
    {
        DeribitWssMessage { jsonrpc: owned("2.0"), method: owned("public/test"), params: None, id }
    }
}



} // verus!
