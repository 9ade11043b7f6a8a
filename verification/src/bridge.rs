//! Routing of JSON calls that arrive over the HTTP bridge: the bridge
//! knows each method of the service by name, with its method id and whether
//! it takes or returns a channel. A call to an unknown name is refused, and
//! so is a call to a channel method, which needs a WebSocket.
use vstd::prelude::*;

use vstd::string::StringExecFns;

verus! {

/// What the bridge knows of one method.
#[derive(Debug, Clone)]
pub struct BridgeMethod {
    pub name: String,
    pub method_id: u64,
    pub has_channels: bool,
}

/// Why the bridge refuses a call before it reaches the backend.
#[derive(Debug, Clone, PartialEq, Eq)]
pub enum BridgeRefusal {
    /// No method of that name (answered as a protocol error).
    UnknownMethod(String),
    /// The method takes or returns a channel (answered as a bad request).
    ChannelsRequireWebSocket,
}

/// The text of a refusal.
pub open spec fn refusal_text(r: BridgeRefusal) -> Seq<char> {
    match r {
        BridgeRefusal::UnknownMethod(n) => "Unknown method: "@ + n@,
        BridgeRefusal::ChannelsRequireWebSocket => "Channel methods require WebSocket"@,
    }
}

impl BridgeRefusal {
    /// The text of the refusal.
    pub fn message(&self) -> (s: String)
        ensures
            s@ == refusal_text(*self),
    {
        match self {
            BridgeRefusal::UnknownMethod(n) => {
                let mut s = "Unknown method: ".to_string();
                s.append(n.as_str());
                s
            },
            BridgeRefusal::ChannelsRequireWebSocket => "Channel methods require WebSocket".to_string(),
        }
    }
}

/// The methods by name, each name mapped to the id and channel flag of the
/// last method that bears it.
pub open spec fn method_table(ms: Seq<BridgeMethod>) -> Map<Seq<char>, (u64, bool)>
    decreases ms.len(),
{
    if ms.len() == 0 {
        Map::empty()
    } else {
        method_table(ms.drop_last()).insert(
            ms.last().name@,
            (ms.last().method_id, ms.last().has_channels),
        )
    }
}

/// The methods that the bridge serves.
pub struct BridgeRoutes {
    methods: Vec<BridgeMethod>,
}

impl BridgeRoutes {
    /// The methods of the bridge, by name.
    pub closed spec fn table(&self) -> Map<Seq<char>, (u64, bool)> {
        method_table(self.methods@)
    }

    /// The routes of a service's methods, given in order.
    pub fn new(methods: Vec<BridgeMethod>) -> (r: BridgeRoutes)
        ensures
            r.table() == method_table(methods@),
    {
        BridgeRoutes { methods }
    }

    /// Routes a call to the method `name`: its method id, or why the call
    /// is refused (with the name, for an unknown method).
    pub fn route(&self, name: &str) -> (r: Result<u64, BridgeRefusal>)
        ensures
            !self.table().contains_key(name@) ==> (r matches Err(BridgeRefusal::UnknownMethod(n))
                && n@ == name@),
            self.table().contains_key(name@) && self.table()[name@].1 ==> r matches Err(
                BridgeRefusal::ChannelsRequireWebSocket,
            ),
            self.table().contains_key(name@) && !self.table()[name@].1 ==> r == Ok::<
                u64,
                BridgeRefusal,
            >(self.table()[name@].0),
    {
        let wanted = name.to_string();
        let mut k = self.methods.len();
        assert(self.methods@.subrange(0, k as int) == self.methods@);
        while k > 0
            invariant
                k <= self.methods@.len(),
                wanted@ == name@,
                method_table(self.methods@).contains_key(name@) <==> method_table(
                    self.methods@.subrange(0, k as int),
                ).contains_key(name@),
                method_table(self.methods@).contains_key(name@) ==> method_table(self.methods@)[name@]
                    == method_table(self.methods@.subrange(0, k as int))[name@],
            decreases k,
        {
            let ghost sub = self.methods@.subrange(0, k as int);
            assert(sub.drop_last() == self.methods@.subrange(0, k - 1));
            assert(sub.last() == self.methods@[k - 1]);
            let m = &self.methods[k - 1];
            if m.name == wanted {
                if m.has_channels {
                    return Err(BridgeRefusal::ChannelsRequireWebSocket);
                }
                return Ok(m.method_id);
            }
            k = k - 1;
        }
        assert(self.methods@.subrange(0, 0) =~= Seq::<BridgeMethod>::empty());
        Err(BridgeRefusal::UnknownMethod(wanted))
    }
}

} // verus!
