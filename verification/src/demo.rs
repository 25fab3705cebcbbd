//! The reference plugin: counts the clips it is shown and brightens images.

use vstd::prelude::*;
use vstd::string::*;

use crate::bridge::json::{
    bool_of, describe_json_error, json_bool, json_member, json_parse, member_of, read_json,
};
use crate::contract::{
    ClipEvent, OperationRequest, OperationResponse, Plugin, StatusRecord, StatusView,
};
use crate::error::{BridgeError, ConfigError};
use crate::text::holds_text;

verus! {

/// How much brighter [`DemoPlugin::process_image`] makes every byte.
pub const BRIGHTNESS_STEP: u8 = 10;

/// One byte of an image, brightened: raised by the step, and no higher than
/// a byte can go.
pub open spec fn brightened(byte: u8) -> u8 {
    if byte + BRIGHTNESS_STEP > u8::MAX {
        u8::MAX
    } else {
        (byte + BRIGHTNESS_STEP) as u8
    }
}

/// An image, brightened byte by byte.
pub open spec fn brighten(data: Seq<u8>) -> Seq<u8> {
    Seq::new(data.len(), |i: int| brightened(data[i]))
}

/// The count of clips after one more, which starts over past the largest
/// count.
pub open spec fn counted_up(count: nat) -> nat {
    if count >= u64::MAX {
        0
    } else {
        count + 1
    }
}

/// What a configuration document says of the fast path: the boolean under
/// `useSIMD`, if the document is a JSON object that has one.
pub open spec fn simd_setting(config: Seq<char>) -> Option<bool> {
    match json_parse(config) {
        Some(document) => match json_member(document, "useSIMD"@) {
            Some(setting) => json_bool(setting),
            None => None,
        },
        None => None,
    }
}

/// The demo plugin's own counters.
#[derive(Debug)]
pub struct DemoStats {
    pub clips_processed: u64,
    pub simd_enabled: bool,
}

/// The reference plugin.
#[derive(Debug)]
pub struct DemoPlugin {
    id: String,
    name: String,
    version: String,
    config: Option<String>,
    clip_count: u64,
    use_simd: bool,
}

impl DemoPlugin {
    /// The configuration document that the plugin accepted last.
    pub closed spec fn config_text(&self) -> Option<Seq<char>> {
        match self.config {
            Some(config) => Some(config@),
            None => None,
        }
    }

    /// How many clips the plugin has been shown since the count last
    /// started over.
    pub closed spec fn clip_count(&self) -> nat {
        self.clip_count as nat
    }

    /// Whether the fast path is switched on.
    pub closed spec fn use_simd(&self) -> bool {
        self.use_simd
    }

    pub closed spec fn id_text(&self) -> Seq<char> {
        self.id@
    }

    pub closed spec fn name_text(&self) -> Seq<char> {
        self.name@
    }

    pub closed spec fn version_text(&self) -> Seq<char> {
        self.version@
    }

    /// What never changes of a demo plugin.
    pub open spec fn wf(&self) -> bool {
        &&& self.id_text() == "com.clipshot.rust-demo"@
        &&& self.name_text() == "Rust Demo Plugin"@
        &&& self.version_text() == "1.0.0"@
    }

    /// A plugin that has seen nothing and was never configured, with the
    /// fast path switched on.
    pub fn new() -> (plugin: Self)
        ensures
            plugin.wf(),
            plugin.config_text() is None,
            plugin.clip_count() == 0,
            plugin.use_simd(),
    {
        DemoPlugin {
            id: String::from_str("com.clipshot.rust-demo"),
            name: String::from_str("Rust Demo Plugin"),
            version: String::from_str("1.0.0"),
            config: None,
            clip_count: 0,
            use_simd: true,
        }
    }

    pub fn id(&self) -> (id: &str)
        ensures
            id@ == self.id_text(),
    {
        self.id.as_str()
    }

    pub fn name(&self) -> (name: &str)
        ensures
            name@ == self.name_text(),
    {
        self.name.as_str()
    }

    pub fn version(&self) -> (version: &str)
        ensures
            version@ == self.version_text(),
    {
        self.version.as_str()
    }

    /// Remembers `config` as the accepted configuration and switches the
    /// fast path as `setting` says; without a setting the switch stays.
    pub fn configure(&mut self, config: &str, setting: Option<bool>)
        ensures
            final(self).config_text() == Some(config@),
            final(self).use_simd() == match setting {
                Some(flag) => flag,
                None => old(self).use_simd(),
            },
            final(self).clip_count() == old(self).clip_count(),
            final(self).id_text() == old(self).id_text(),
            final(self).name_text() == old(self).name_text(),
            final(self).version_text() == old(self).version_text(),
    {
        self.config = Some(String::from_str(config));
        match setting {
            Some(flag) => {
                self.use_simd = flag;
            },
            None => {},
        }
    }

    /// Brightens an image: every byte is raised by [`BRIGHTNESS_STEP`] and
    /// stops at 255. The dimensions describe the image and do not change the
    /// result, nor does the fast path.
    pub fn process_image(&self, width: u32, height: u32, data: &Vec<u8>) -> (output: Vec<u8>)
        ensures
            output@ == brighten(data@),
    {
        let mut output: Vec<u8> = Vec::new();
        let mut i: usize = 0;
        while i < data.len()
            invariant
                i <= data.len(),
                output.len() == i,
                forall|k: int| 0 <= k < i ==> output[k] == brightened(data[k]),
            decreases data.len() - i,
        {
            output.push(data[i].saturating_add(BRIGHTNESS_STEP));
            i += 1;
        }
        assert(output@ =~= brighten(data@));
        output
    }

    /// The plugin's own counters.
    pub fn get_stats(&self) -> (stats: DemoStats)
        ensures
            stats.clips_processed == self.clip_count(),
            stats.simd_enabled == self.use_simd(),
    {
        DemoStats { clips_processed: self.clip_count, simd_enabled: self.use_simd }
    }

    /// Starts the clip count over and returns what it was.
    pub fn reset_counters(&mut self) -> (previous: u64)
        ensures
            previous == old(self).clip_count(),
            final(self).clip_count() == 0,
            final(self).use_simd() == old(self).use_simd(),
            final(self).config_text() == old(self).config_text(),
            final(self).id_text() == old(self).id_text(),
            final(self).name_text() == old(self).name_text(),
            final(self).version_text() == old(self).version_text(),
    {
        let previous: u64 = self.clip_count;
        self.clip_count = 0;
        previous
    }
}

impl Plugin for DemoPlugin {
    open spec fn configured(&self) -> bool {
        self.config_text() is Some
    }

    open spec fn status(&self) -> StatusView {
        StatusView {
            healthy: true,
            version: self.version_text(),
            clip_count: self.clip_count(),
            use_simd: self.use_simd(),
            language: "rust"@,
        }
    }

    open spec fn answer(&self, operation: Seq<char>, payload: Seq<u8>) -> Option<Seq<u8>> {
        if operation == "process_image"@ {
            Some(brighten(payload))
        } else {
            None
        }
    }

    /// Accepts `config` if it is JSON and takes the fast-path switch from its
    /// `useSIMD` field, if it has a boolean one.
    fn init(&mut self, config: &str) -> (result: Result<(), ConfigError>)
        ensures
            result is Ok ==> final(self).config_text() == Some(config@) && final(self).use_simd()
                == match simd_setting(config@) {
                Some(flag) => flag,
                None => old(self).use_simd(),
            },
            result is Err ==> *final(self) == *old(self),
            final(self).clip_count() == old(self).clip_count(),
            final(self).id_text() == old(self).id_text(),
            final(self).name_text() == old(self).name_text(),
            final(self).version_text() == old(self).version_text(),
    {
        match read_json(config) {
            Ok(document) => {
                let setting = match member_of(&document, "useSIMD") {
                    Some(member) => bool_of(member),
                    None => None,
                };
                self.configure(config, setting);
                Ok(())
            },
            Err(error) => Err(ConfigError { reason: describe_json_error(&error) }),
        }
    }

    /// Succeeds and leaves the plugin as it is.
    fn shutdown(&mut self) -> (result: Result<(), BridgeError>)
        ensures
            result is Ok,
            *final(self) == *old(self),
    {
        Ok(())
    }

    /// Counts the clip.
    fn on_event(&mut self, event: &ClipEvent) -> (result: Result<(), BridgeError>)
        ensures
            result is Ok,
            final(self).clip_count() == counted_up(old(self).clip_count()),
            final(self).use_simd() == old(self).use_simd(),
            final(self).config_text() == old(self).config_text(),
            final(self).id_text() == old(self).id_text(),
            final(self).name_text() == old(self).name_text(),
            final(self).version_text() == old(self).version_text(),
    {
        if self.clip_count == u64::MAX {
            self.clip_count = 0;
        } else {
            self.clip_count = self.clip_count + 1;
        }
        Ok(())
    }

    fn get_status(&self) -> (record: StatusRecord) {
        StatusRecord {
            healthy: true,
            version: self.version.clone(),
            clip_count: self.clip_count,
            use_simd: self.use_simd,
            language: String::from_str("rust"),
        }
    }

    /// Answers `process_image` with the brightened payload and refuses
    /// every other operation as `NotFound`.
    fn process(&self, request: &OperationRequest) -> (result: Result<
        OperationResponse,
        BridgeError,
    >)
        ensures
            result is Err ==> result->Err_0 is NotFound && result->Err_0.text()
                == "Unknown operation: "@ + request.operation@,
    {
        if holds_text(&request.operation, "process_image") {
            Ok(OperationResponse { payload: self.process_image(0, 0, &request.payload) })
        } else {
            let mut m = String::from_str("Unknown operation: ");
            m.append(request.operation.as_str());
            Err(BridgeError::NotFound(m))
        }
    }
}

impl Default for DemoPlugin {
    fn default() -> (plugin: Self)
        ensures
            plugin.wf(),
            plugin.config_text() is None,
            plugin.clip_count() == 0,
            plugin.use_simd(),
    {
        DemoPlugin::new()
    }
}

} // verus!
