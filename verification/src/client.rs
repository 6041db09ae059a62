//! The capability-gated client facade.
//!
//! Every capability-sensitive operation is decided here, against the active
//! backend's capability table, before anything could reach a transport: an
//! unsupported operation returns `UnsupportedFeature` carrying the feature
//! and backend names, and any operation without a session is `NotConnected`.
//! The runtime layer owns the session and performs what these decisions ask.

use vstd::prelude::*;

use crate::backend::{backend_name, backend_name_of, capabilities_of, BackendKind, Capabilities};
use crate::error::Error;
use crate::json::{Json, JsonV};

verus! {

/// The facade's own state: which backend is active, and whether a session
/// exists.
#[derive(Debug)]
pub struct ClientState {
    pub kind: BackendKind,
    pub connected: bool,
}

/// How an operation is allowed or refused: `Ok` exactly when the backend's
/// capability bit is set and a session exists; a missing capability is
/// reported before a missing session.
pub open spec fn gate_v(
    r: Result<(), Error>,
    kind: BackendKind,
    feature: Seq<char>,
    capable: bool,
    connected: bool,
) -> bool {
    if !capable {
        r matches Err(Error::UnsupportedFeature { feature: f, backend: b }) && f@ == feature && b@
            == backend_name_of(kind)
    } else if !connected {
        r matches Err(Error::NotConnected)
    } else {
        r is Ok
    }
}

impl ClientState {
    /// A facade for the given backend, with no session yet.
    pub fn new(kind: BackendKind) -> (r: Self)
        ensures
            r.kind == kind,
            !r.connected,
    {
        ClientState { kind, connected: false }
    }

    /// Record that a session now exists.
    pub fn set_connected(&mut self, connected: bool)
        ensures
            final(self).kind == old(self).kind,
            final(self).connected == connected,
    {
        self.connected = connected;
    }

    /// The active backend's capability table.
    pub fn capabilities(&self) -> (r: Capabilities)
        ensures
            r == capabilities_of(self.kind),
    {
        crate::backend::capabilities_for(self.kind)
    }

    fn gate(&self, feature: &str, capable: bool) -> (r: Result<(), Error>)
        ensures
            gate_v(r, self.kind, feature@, capable, self.connected),
    {
        if !capable {
            Err(
                Error::UnsupportedFeature {
                    feature: String::from_str(feature),
                    backend: String::from_str(backend_name(self.kind)),
                },
            )
        } else if !self.connected {
            Err(Error::NotConnected)
        } else {
            Ok(())
        }
    }

    /// Gate an interrupt: allowed exactly on backends whose capability
    /// table has `interrupt`, and only with a session; the capability is
    /// checked before the transport could ever be reached.
    pub fn interrupt(&self) -> (r: Result<Json, Error>)
        ensures
            !capabilities_of(self.kind).interrupt ==> (r matches Err(
                Error::UnsupportedFeature { feature, backend },
            ) && feature@ == "interrupt"@ && backend@ == backend_name_of(self.kind)),
            capabilities_of(self.kind).interrupt && !self.connected ==> r matches Err(
                Error::NotConnected,
            ),
            capabilities_of(self.kind).interrupt && self.connected ==> (r matches Ok(req)
                && req.jv() == control_subtype_v("interrupt"@)),
    {
        let caps = self.capabilities();
        match self.gate("interrupt", caps.interrupt) {
            Ok(()) => Ok(control_subtype_request("interrupt")),
            Err(e) => Err(e),
        }
    }

    /// Gate a runtime permission-mode change.
    pub fn set_permission_mode(&self, mode: &str) -> (r: Result<Json, Error>)
        ensures
            gate_result_v(
                r,
                self.kind,
                "set_permission_mode"@,
                capabilities_of(self.kind).runtime_config_changes,
                self.connected,
            ),
            capabilities_of(self.kind).runtime_config_changes && self.connected ==> (r matches Ok(
                req,
            ) && req.jv() == JsonV::Obj(
                seq![
                    ("subtype"@, JsonV::Str("set_permission_mode"@)),
                    ("mode"@, JsonV::Str(mode@)),
                ],
            )),
    {
        let caps = self.capabilities();
        match self.gate("set_permission_mode", caps.runtime_config_changes) {
            Ok(()) => {
                let mut fields: Vec<(String, Json)> = Vec::new();
                fields.push((String::from_str("subtype"), Json::str_of("set_permission_mode")));
                fields.push((String::from_str("mode"), Json::str_of(mode)));
                let req = Json::Obj(fields);
                proof {
                    crate::json::lemma_obj_fields(fields);
                    assert(crate::json::obj_fields_v(fields@) =~= seq![
                        ("subtype"@, JsonV::Str("set_permission_mode"@)),
                        ("mode"@, JsonV::Str(mode@)),
                    ]);
                    assert(req.jv() =~= JsonV::Obj(
                        seq![
                            ("subtype"@, JsonV::Str("set_permission_mode"@)),
                            ("mode"@, JsonV::Str(mode@)),
                        ],
                    ));
                }
                Ok(req)
            },
            Err(e) => Err(e),
        }
    }

    /// Gate a runtime model change; an absent model is sent as null.
    pub fn set_model(&self, model: Option<&str>) -> (r: Result<Json, Error>)
        ensures
            gate_result_v(
                r,
                self.kind,
                "set_model"@,
                capabilities_of(self.kind).runtime_config_changes,
                self.connected,
            ),
            capabilities_of(self.kind).runtime_config_changes && self.connected ==> (r matches Ok(
                req,
            ) && req.jv() == JsonV::Obj(
                seq![
                    ("subtype"@, JsonV::Str("set_model"@)),
                    (
                        "model"@,
                        match model {
                            Some(m) => JsonV::Str(m@),
                            None => JsonV::Null,
                        },
                    ),
                ],
            )),
    {
        let caps = self.capabilities();
        match self.gate("set_model", caps.runtime_config_changes) {
            Ok(()) => {
                let model_val = match model {
                    Some(m) => Json::str_of(m),
                    None => Json::Null,
                };
                let mut fields: Vec<(String, Json)> = Vec::new();
                fields.push((String::from_str("subtype"), Json::str_of("set_model")));
                fields.push((String::from_str("model"), model_val));
                let req = Json::Obj(fields);
                proof {
                    crate::json::lemma_obj_fields(fields);
                    assert(crate::json::obj_fields_v(fields@) =~= seq![
                        ("subtype"@, JsonV::Str("set_model"@)),
                        (
                            "model"@,
                            match model {
                                Some(m) => JsonV::Str(m@),
                                None => JsonV::Null,
                            },
                        ),
                    ]);
                    assert(req.jv() =~= JsonV::Obj(
                        seq![
                            ("subtype"@, JsonV::Str("set_model"@)),
                            (
                                "model"@,
                                match model {
                                    Some(m) => JsonV::Str(m@),
                                    None => JsonV::Null,
                                },
                            ),
                        ],
                    ));
                }
                Ok(req)
            },
            Err(e) => Err(e),
        }
    }

    /// Gate a file rewind.
    pub fn rewind_files(&self, user_message_id: &str) -> (r: Result<Json, Error>)
        ensures
            gate_result_v(
                r,
                self.kind,
                "rewind_files"@,
                capabilities_of(self.kind).control_protocol,
                self.connected,
            ),
            capabilities_of(self.kind).control_protocol && self.connected ==> (r matches Ok(req)
                && req.jv() == JsonV::Obj(
                seq![
                    ("subtype"@, JsonV::Str("rewind_files"@)),
                    ("user_message_id"@, JsonV::Str(user_message_id@)),
                ],
            )),
    {
        let caps = self.capabilities();
        match self.gate("rewind_files", caps.control_protocol) {
            Ok(()) => {
                let mut fields: Vec<(String, Json)> = Vec::new();
                fields.push((String::from_str("subtype"), Json::str_of("rewind_files")));
                fields.push((String::from_str("user_message_id"), Json::str_of(user_message_id)));
                let req = Json::Obj(fields);
                proof {
                    crate::json::lemma_obj_fields(fields);
                    assert(crate::json::obj_fields_v(fields@) =~= seq![
                        ("subtype"@, JsonV::Str("rewind_files"@)),
                        ("user_message_id"@, JsonV::Str(user_message_id@)),
                    ]);
                    assert(req.jv() =~= JsonV::Obj(
                        seq![
                            ("subtype"@, JsonV::Str("rewind_files"@)),
                            ("user_message_id"@, JsonV::Str(user_message_id@)),
                        ],
                    ));
                }
                Ok(req)
            },
            Err(e) => Err(e),
        }
    }

    /// Gate a tool-server status query.
    pub fn get_mcp_status(&self) -> (r: Result<Json, Error>)
        ensures
            gate_result_v(
                r,
                self.kind,
                "get_mcp_status"@,
                capabilities_of(self.kind).control_protocol,
                self.connected,
            ),
            capabilities_of(self.kind).control_protocol && self.connected ==> (r matches Ok(req)
                && req.jv() == control_subtype_v("mcp_status"@)),
    {
        let caps = self.capabilities();
        match self.gate("get_mcp_status", caps.control_protocol) {
            Ok(()) => Ok(control_subtype_request("mcp_status")),
            Err(e) => Err(e),
        }
    }
}

/// A bare control request of the given subtype.
pub open spec fn control_subtype_v(subtype: Seq<char>) -> JsonV {
    JsonV::Obj(seq![("subtype"@, JsonV::Str(subtype))])
}

/// How an operation returning a request payload is allowed or refused.
pub open spec fn gate_result_v(
    r: Result<Json, Error>,
    kind: BackendKind,
    feature: Seq<char>,
    capable: bool,
    connected: bool,
) -> bool {
    if !capable {
        r matches Err(Error::UnsupportedFeature { feature: f, backend: b }) && f@ == feature && b@
            == backend_name_of(kind)
    } else if !connected {
        r matches Err(Error::NotConnected)
    } else {
        r is Ok
    }
}

/// Build a bare control request of the given subtype.
pub fn control_subtype_request(subtype: &str) -> (r: Json)
    ensures
        r.jv() == control_subtype_v(subtype@),
{
    let mut fields: Vec<(String, Json)> = Vec::new();
    fields.push((String::from_str("subtype"), Json::str_of(subtype)));
    let r = Json::Obj(fields);
    proof {
        crate::json::lemma_obj_fields(fields);
        assert(crate::json::obj_fields_v(fields@) =~= seq![("subtype"@, JsonV::Str(subtype@))]);
        assert(r.jv() =~= control_subtype_v(subtype@));
    }
    r
}

/// Capability gating never lets an unsupported `interrupt` reach any
/// transport: on a backend whose table says no, the outcome is always the
/// typed error naming the feature and the backend, whatever the session
/// state.
pub proof fn lemma_interrupt_gated(st: ClientState)
    requires
        !capabilities_of(st.kind).interrupt,
    ensures
        forall|r: Result<Json, Error>|
            gate_result_v(
                r,
                st.kind,
                "interrupt"@,
                capabilities_of(st.kind).interrupt,
                st.connected,
            ) ==> (r matches Err(Error::UnsupportedFeature { feature, backend }) && feature@
                == "interrupt"@ && backend@ == backend_name_of(st.kind)),
{
}

} // verus!
