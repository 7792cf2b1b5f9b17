use vstd::prelude::*;
use crate::error::{JanusError, JANUS_ERROR_PLUGIN_NOT_FOUND};
use crate::json::{str_eq, JsonValue};
use crate::videoroom::VideoRoomPlugin;

verus! {

/// One request on its way to a plugin: the client's transaction, the plugin
/// body, and an optional JSEP payload.
#[derive(Debug, PartialEq)]
pub struct JanusPluginMessage {
    pub transaction: String,
    pub body: JsonValue,
    pub jsep: Option<JsonValue>,
}

impl JanusPluginMessage {
    pub fn new(transaction: String, body: JsonValue, jsep: Option<JsonValue>) -> (r:
        JanusPluginMessage)
        ensures
            r == (JanusPluginMessage { transaction, body, jsep }),
    {
        JanusPluginMessage { transaction, body, jsep }
    }
}

/// How a plugin answered a message.
#[allow(non_camel_case_types)]
#[derive(Debug, Clone, Copy, PartialEq, Eq, Structural)]
pub enum JanusPluginResultType {
    /// The plugin failed outright.
    JANUS_PLUGIN_ERROR,
    /// The plugin answered synchronously.
    JANUS_PLUGIN_OK,
    /// The plugin deferred the message to its asynchronous worker.
    JANUS_PLUGIN_OK_WAIT,
}

/// A plugin's answer: its kind, an optional text, the content for the
/// client, and an optional JSEP payload.
#[derive(Debug, PartialEq)]
pub struct JanusPluginResult {
    pub kind: JanusPluginResultType,
    pub text: Option<String>,
    pub content: Option<JsonValue>,
    pub jsep: Option<JsonValue>,
}

impl JanusPluginResult {
    /// A synchronous answer carrying `data`.
    pub fn ok(data: JsonValue) -> (r: JanusPluginResult)
        ensures
            r.kind == JanusPluginResultType::JANUS_PLUGIN_OK,
            r.text is None,
            r.content == Some(data),
            r.jsep is None,
    {
        JanusPluginResult {
            kind: JanusPluginResultType::JANUS_PLUGIN_OK,
            text: None,
            content: Some(data),
            jsep: None,
        }
    }

    /// A deferred answer, optionally hinting why.
    pub fn wait(text: Option<String>) -> (r: JanusPluginResult)
        ensures
            r.kind == JanusPluginResultType::JANUS_PLUGIN_OK_WAIT,
            r.text == text,
            r.content is None,
            r.jsep is None,
    {
        JanusPluginResult {
            kind: JanusPluginResultType::JANUS_PLUGIN_OK_WAIT,
            text,
            content: None,
            jsep: None,
        }
    }

    /// An outright failure.
    pub fn err() -> (r: JanusPluginResult)
        ensures
            r.kind == JanusPluginResultType::JANUS_PLUGIN_ERROR,
            r.text is None,
            r.content is None,
            r.jsep is None,
    {
        JanusPluginResult {
            kind: JanusPluginResultType::JANUS_PLUGIN_ERROR,
            text: None,
            content: None,
            jsep: None,
        }
    }

    /// The same answer with a JSEP payload attached.
    pub fn with_jsep(self, jsep: Option<JsonValue>) -> (r: JanusPluginResult)
        ensures
            r == (JanusPluginResult { jsep, ..self }),
    {
        JanusPluginResult { jsep, ..self }
    }
}

/// The stable identifier of the reference videoroom plugin.
pub open spec fn spec_videoroom_name() -> Seq<char> {
    "janus.plugin.videoroom"@
}

/// The registry of plugin names a proxy accepts. Resolving a registered name
/// produces a fresh plugin instance for the attaching handle; the videoroom
/// plugin is the one implementation this proxy ships.
pub struct JanusPluginProvider {
    names: Vec<String>,
}

impl JanusPluginProvider {
    /// The registered plugin names.
    pub closed spec fn names(&self) -> Seq<Seq<char>> {
        self.names@.map_values(|s: String| s@)
    }

    /// A registry with nothing registered, for customization.
    pub fn empty() -> (r: JanusPluginProvider)
        ensures
            r.names() == Seq::<Seq<char>>::empty(),
    {
        let r = JanusPluginProvider { names: Vec::new() };
        proof {
            assert(r.names() =~= Seq::<Seq<char>>::empty());
        }
        r
    }

    /// The default registry: the videoroom plugin only.
    pub fn default() -> (r: JanusPluginProvider)
        ensures
            r.names() == seq!["janus.plugin.videoroom"@],
    {
        let r = Self::empty();
        let r = r.add(String::from_str("janus.plugin.videoroom"));
        proof {
            assert(r.names() =~= seq!["janus.plugin.videoroom"@]);
        }
        r
    }

    /// Registers one more plugin name.
    pub fn add(self, name: String) -> (r: JanusPluginProvider)
        ensures
            r.names() == self.names().push(name@),
    {
        let ghost before = self.names();
        let mut names = self.names;
        names.push(name);
        let r = JanusPluginProvider { names };
        proof {
            assert(r.names() =~= before.push(name@));
        }
        r
    }

    /// Whether a plugin name is registered.
    fn contains_name(&self, name: &str) -> (r: bool)
        ensures
            r == self.names().contains(name@),
    {
        let mut i: usize = 0;
        while i < self.names.len()
            invariant
                0 <= i <= self.names@.len(),
                forall|j: int| 0 <= j < i ==> self.names()[j] != name@,
            decreases self.names.len() - i,
        {
            if str_eq(self.names[i].as_str(), name) {
                proof {
                    assert(self.names()[i as int] == name@);
                }
                return true;
            }
            i = i + 1;
        }
        proof {
            if self.names().contains(name@) {
                let j = choose|j: int|
                    0 <= j < self.names().len() && self.names()[j] == name@;
            }
        }
        false
    }

    /// Resolves a plugin name to a fresh instance: the name must be
    /// registered and known to this build, else the not-found error.
    pub fn resolve(&self, name: String) -> (r: Result<VideoRoomPlugin, JanusError>)
        ensures
            r is Ok <==> (self.names().contains(name@) && name@ == spec_videoroom_name()),
            r matches Ok(p) ==> p.session.participant_type
                == crate::videoroom::JANUS_VIDEOROOM_P_TYPE_NONE,
            r matches Err(e) ==> e.code == JANUS_ERROR_PLUGIN_NOT_FOUND,
    {
        let registered = self.contains_name(name.as_str());
        if registered && str_eq(name.as_str(), "janus.plugin.videoroom") {
            Ok(VideoRoomPlugin::new())
        } else {
            Err(
                JanusError::new(
                    JANUS_ERROR_PLUGIN_NOT_FOUND,
                    String::from_str("No such plugin '").concat(name.as_str()).concat("'"),
                ),
            )
        }
    }
}

} // verus!
