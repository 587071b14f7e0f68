//! The configuration: the streams the gateway is started with.

use crate::error::GatewayError;
use crate::id_map::distinct;
use crate::track_def::{Codec, StreamDef, StreamDefView};
use vstd::prelude::*;

verus! {

/// The views of a list of stream descriptions.
pub open spec fn def_views(defs: Seq<StreamDef>) -> Seq<StreamDefView> {
    defs.map_values(|d: StreamDef| d@)
}

/// The ids of a list of stream descriptions.
pub open spec fn def_ids(defs: Seq<StreamDefView>) -> Seq<Seq<char>> {
    defs.map_values(|d: StreamDefView| d.id)
}

/// Every stream has an id, and no id names two streams.
pub open spec fn valid_defs(defs: Seq<StreamDefView>) -> bool {
    &&& forall|i: int| 0 <= i < defs.len() ==> (#[trigger] defs[i]).id.len() > 0
    &&& distinct(def_ids(defs))
}

/// A set of stream descriptions that has been checked.
pub struct Config {
    streams: Vec<StreamDef>,
}

impl Config {
    pub closed spec fn defs(self) -> Seq<StreamDefView> {
        def_views(self.streams@)
    }

    /// Every stream has an id, and no id names two streams.
    pub closed spec fn wf(self) -> bool {
        valid_defs(def_views(self.streams@))
    }

    /// What a checked configuration is.
    pub proof fn law_config_is_valid(self)
        requires
            self.wf(),
        ensures
            valid_defs(self.defs()),
    {
    }

    /// Checks the descriptions: `ConfigError` where a stream has no id or
    /// two streams share one.
    pub fn new(streams: Vec<StreamDef>) -> (r: Result<Config, GatewayError>)
        ensures
            match r {
                Ok(c) => valid_defs(def_views(streams@)) && c.wf() && c.defs() == def_views(
                    streams@,
                ),
                Err(e) => !valid_defs(def_views(streams@)) && e == GatewayError::ConfigError,
            },
    {
        let ghost views = def_views(streams@);
        let mut i: usize = 0;
        while i < streams.len()
            invariant
                i <= streams.len(),
                views == def_views(streams@),
                forall|a: int| 0 <= a < i ==> (#[trigger] views[a]).id.len() > 0,
                forall|a: int, b: int| 0 <= a < b < i ==> def_ids(views)[a] != def_ids(views)[b],
            decreases streams.len() - i,
        {
            if streams[i].id.as_str().unicode_len() == 0 {
                assert(views[i as int].id.len() == 0);
                return Err(GatewayError::ConfigError);
            }
            let mut j: usize = 0;
            while j < i
                invariant
                    j <= i < streams.len(),
                    views == def_views(streams@),
                    forall|a: int| 0 <= a < j ==> def_ids(views)[a] != def_ids(views)[i as int],
                decreases i - j,
            {
                if streams[j].id == streams[i].id {
                    assert(def_ids(views)[j as int] == def_ids(views)[i as int]);
                    return Err(GatewayError::ConfigError);
                }
                j = j + 1;
            }
            i = i + 1;
        }
        Ok(Config { streams })
    }

    /// The descriptions, in the order given.
    pub fn streams(&self) -> (r: &Vec<StreamDef>)
        ensures
            def_views(r@) == self.defs(),
    {
        &self.streams
    }
}

/// The codec that a configuration names: `"H264"` or `"VP8"`, spelled so.
pub open spec fn spec_parse_codec(name: Seq<char>) -> Option<Codec> {
    if name == "H264"@ {
        Some(Codec::H264)
    } else if name == "VP8"@ {
        Some(Codec::VP8)
    } else {
        None
    }
}

/// Reads a codec name; `ConfigError` for a name that is not a codec.
pub fn parse_codec(name: &str) -> (r: Result<Codec, GatewayError>)
    ensures
        match r {
            Ok(c) => spec_parse_codec(name@) == Some(c),
            Err(e) => spec_parse_codec(name@) is None && e == GatewayError::ConfigError,
        },
{
    let given: String = name.to_owned();
    if given == "H264".to_owned() {
        Ok(Codec::H264)
    } else if given == "VP8".to_owned() {
        Ok(Codec::VP8)
    } else {
        Err(GatewayError::ConfigError)
    }
}

} // verus!
