//! One session with upstream: which requests are under way, and where each
//! message goes.

use crate::forwarder::http_msg::{Http, HttpMessage, HttpRequest, HttpView};
use crate::forwarder::id::Id;
use crate::forwarder::messages::{ProtoMessage, ProtoMessageView};
use crate::forwarder::route::upgrade_header;
use crate::forwarder::ws_msg::{WebSocket, WebSocketView};
use vstd::prelude::*;

verus! {

/// The identifiers of a sequence, by their bytes.
pub open spec fn id_views(ids: Seq<Id>) -> Seq<Seq<u8>> {
    ids.map_values(|id: Id| id@)
}

/// The requests and sockets of a session that are under way. None is there
/// twice.
pub struct Connections {
    ids: Vec<Id>,
}

/// Where a message from upstream goes.
#[derive(Debug, PartialEq, Eq)]
pub enum Routing {
    /// The request goes to the HTTP service on the device.
    Forward(Id, HttpRequest),
    /// The request opens a WebSocket to the service on the device.
    Upgrade(Id, HttpRequest),
    /// The frame goes to the socket that it names.
    Frame(WebSocket),
    /// A request of this name is under way already: the message is dropped.
    Duplicate(Id),
    /// The frame names no socket of the session: it is dropped.
    Unknown(Id),
    /// Upstream sends no responses: the message is dropped.
    Response(Id),
}

/// What a [`Routing`] holds.
pub enum RoutingView {
    Forward(HttpView),
    Upgrade(HttpView),
    Frame(WebSocketView),
    Duplicate(Seq<u8>),
    Unknown(Seq<u8>),
    Response(Seq<u8>),
}

impl View for Routing {
    type V = RoutingView;

    open spec fn view(&self) -> RoutingView {
        match *self {
            Routing::Forward(id, request) => RoutingView::Forward(
                HttpView {
                    request_id: id@,
                    http_msg: crate::forwarder::http_msg::HttpMessageView::Request(request@),
                },
            ),
            Routing::Upgrade(id, request) => RoutingView::Upgrade(
                HttpView {
                    request_id: id@,
                    http_msg: crate::forwarder::http_msg::HttpMessageView::Request(request@),
                },
            ),
            Routing::Frame(ws) => RoutingView::Frame(ws@),
            Routing::Duplicate(id) => RoutingView::Duplicate(id@),
            Routing::Unknown(id) => RoutingView::Unknown(id@),
            Routing::Response(id) => RoutingView::Response(id@),
        }
    }
}

/// Where a message goes in a session in which `open` are under way, and
/// what is under way after it. A request whose name is under way is a
/// duplicate and is never sent twice; any other request is under way from
/// now on, and opens a WebSocket if it asks for the upgrade. A frame goes to
/// its socket if that is under way.
pub open spec fn route(open: Set<Seq<u8>>, message: ProtoMessageView) -> (
    Set<Seq<u8>>,
    RoutingView,
) {
    match message {
        ProtoMessageView::Http(http) => match http.http_msg {
            crate::forwarder::http_msg::HttpMessageView::Response(_) => (
                open,
                RoutingView::Response(http.request_id),
            ),
            crate::forwarder::http_msg::HttpMessageView::Request(request) => if open.contains(
                http.request_id,
            ) {
                (open, RoutingView::Duplicate(http.request_id))
            } else if request.headers.contains(upgrade_header()) {
                (open.insert(http.request_id), RoutingView::Upgrade(http))
            } else {
                (open.insert(http.request_id), RoutingView::Forward(http))
            },
        },
        ProtoMessageView::WebSocket(ws) => if open.contains(ws.socket_id) {
            (open, RoutingView::Frame(ws))
        } else {
            (open, RoutingView::Unknown(ws.socket_id))
        },
    }
}

impl View for Connections {
    type V = Set<Seq<u8>>;

    closed spec fn view(&self) -> Set<Seq<u8>> {
        id_views(self.ids@).to_set()
    }
}

impl Connections {
    #[verifier::type_invariant]
    spec fn distinct(self) -> bool {
        id_views(self.ids@).no_duplicates()
    }

    /// A session in which nothing is under way.
    pub fn new() -> (r: Self)
        ensures
            r@ == Set::<Seq<u8>>::empty(),
    {
        let r = Connections { ids: Vec::new() };
        proof {
            assert(id_views(r.ids@) =~= Seq::empty());
            assert(r@ =~= Set::<Seq<u8>>::empty());
        }
        r
    }

    /// The place of an identifier among those under way.
    fn position(&self, id: &Id) -> (r: Option<usize>)
        ensures
            match r {
                Some(at) => at < self.ids@.len() && self.ids@[at as int]@ == id@,
                None => !self@.contains(id@),
            },
    {
        let mut i: usize = 0;
        while i < self.ids.len()
            invariant
                i <= self.ids@.len(),
                forall|k: int| 0 <= k < i ==> id_views(self.ids@)[k] != id@,
            decreases self.ids@.len() - i,
        {
            if self.ids[i].same(id) {
                return Some(i);
            }
            i += 1;
        }
        proof {
            assert(!id_views(self.ids@).contains(id@));
        }
        None
    }

    /// Whether a request or socket of the name is under way.
    pub fn contains(&self, id: &Id) -> (r: bool)
        ensures
            r == self@.contains(id@),
    {
        match self.position(id) {
            Some(at) => {
                proof {
                    assert(id_views(self.ids@)[at as int] == id@);
                }
                true
            },
            None => false,
        }
    }

    /// Puts a name among those under way; `false`, and nothing changes, if
    /// it is there already.
    pub fn try_add(self, id: Id) -> (r: (Self, bool))
        ensures
            r.1 == !self@.contains(id@),
            r.0@ == self@.insert(id@),
    {
        proof {
            use_type_invariant(&self);
        }
        let ghost before = id_views(self.ids@);
        if self.contains(&id) {
            proof {
                assert(self@.insert(id@) =~= self@);
            }
            (self, false)
        } else {
            let mut ids = self.ids;
            ids.push(id);
            proof {
                let after = id_views(ids@);
                assert(after == before.push(id@));
                assert(after.no_duplicates());
                assert(after.to_set() =~= before.to_set().insert(id@)) by {
                    assert forall|x: Seq<u8>| after.contains(x) <==> before.contains(x) || x
                        == id@ by {
                        if before.contains(x) {
                            let k = choose|k: int| 0 <= k < before.len() && before[k] == x;
                            assert(after[k] == x);
                        }
                        if x == id@ {
                            assert(after[before.len() as int] == x);
                        }
                    }
                }
            }
            (Connections { ids }, true)
        }
    }

    /// Takes a name from those under way; `false` if it is not there.
    pub fn remove(self, id: &Id) -> (r: (Self, bool))
        ensures
            r.1 == self@.contains(id@),
            r.0@ == self@.remove(id@),
    {
        proof {
            use_type_invariant(&self);
        }
        let ghost before = id_views(self.ids@);
        match self.position(id) {
            Some(at) => {
                let mut ids = self.ids;
                let _ = ids.remove(at);
                proof {
                    let after = id_views(ids@);
                    assert(after == before.remove(at as int));
                    assert(before[at as int] == id@);
                    assert(after.no_duplicates());
                    assert(after.to_set() =~= before.to_set().remove(id@)) by {
                        assert forall|x: Seq<u8>| after.contains(x) <==> before.contains(x) && x
                            != id@ by {
                            if after.contains(x) {
                                let k = choose|k: int| 0 <= k < after.len() && after[k] == x;
                                if k < at {
                                    assert(before[k] == x);
                                } else {
                                    assert(before[k + 1] == x);
                                }
                            }
                            if before.contains(x) && x != id@ {
                                let k = choose|k: int| 0 <= k < before.len() && before[k] == x;
                                if k < at {
                                    assert(after[k] == x);
                                } else {
                                    assert(after[k - 1] == x);
                                }
                            }
                        }
                    }
                }
                (Connections { ids }, true)
            },
            None => {
                proof {
                    assert(self@.remove(id@) =~= self@);
                }
                (self, false)
            },
        }
    }

    /// Decides where a message from upstream goes.
    pub fn route(self, message: ProtoMessage) -> (r: (Self, Routing))
        ensures
            (r.0@, r.1@) == route(self@, message@),
    {
        match message {
            ProtoMessage::Http(http) => {
                let Http { request_id, http_msg } = http;
                match http_msg {
                    HttpMessage::Response(_) => (self, Routing::Response(request_id)),
                    HttpMessage::Request(request) => {
                        let (connections, added) = self.try_add(request_id.clone());
                        if !added {
                            (connections, Routing::Duplicate(request_id))
                        } else if request.is_upgrade() {
                            (connections, Routing::Upgrade(request_id, request))
                        } else {
                            (connections, Routing::Forward(request_id, request))
                        }
                    },
                }
            },
            ProtoMessage::WebSocket(ws) => {
                if self.contains(&ws.socket_id) {
                    (self, Routing::Frame(ws))
                } else {
                    let socket_id = ws.socket_id;
                    (self, Routing::Unknown(socket_id))
                }
            },
        }
    }
}

} // verus!
