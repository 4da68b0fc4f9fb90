//! Per-stage configuration: initial seed data, string parameters and an
//! optional wire-version override, assembled through a builder.

use vstd::prelude::*;

verus! {

/// The wire version used when a stage's configuration does not override it.
pub const DEFAULT_SMARTENGINE_VERSION: i16 = 17;

/// The view of a parameter mapping: the key/value pairs in insertion order.
pub open spec fn params_view(pairs: Seq<(String, String)>) -> Seq<(Seq<char>, Seq<char>)> {
    pairs.map_values(|kv: (String, String)| (kv.0@, kv.1@))
}

/// Whether a parameter sequence holds the key.
pub open spec fn params_has_key(s: Seq<(Seq<char>, Seq<char>)>, key: Seq<char>) -> bool {
    exists|i: int| 0 <= i < s.len() && s[i].0 == key
}

/// The index at which a parameter sequence holds the key.
pub open spec fn params_key_index(s: Seq<(Seq<char>, Seq<char>)>, key: Seq<char>) -> int {
    choose|i: int| 0 <= i < s.len() && s[i].0 == key
}

/// Whether no key occurs twice.
pub open spec fn params_keys_unique(s: Seq<(Seq<char>, Seq<char>)>) -> bool {
    forall|i: int, j: int| 0 <= i < j < s.len() ==> s[i].0 != s[j].0
}

/// Inserting into a parameter sequence: an existing key keeps its place and
/// takes the new value, a new key is appended.
pub open spec fn params_insert(
    s: Seq<(Seq<char>, Seq<char>)>,
    key: Seq<char>,
    value: Seq<char>,
) -> Seq<(Seq<char>, Seq<char>)> {
    if params_has_key(s, key) {
        s.update(params_key_index(s, key), (key, value))
    } else {
        s.push((key, value))
    }
}

/// A mapping of string parameters with unique keys, handed to a guest's
/// `init` export at chain-build time.
#[derive(Clone, Debug, PartialEq, Eq)]
pub struct SmartModuleExtraParams {
    pub pairs: Vec<(String, String)>,
}

impl View for SmartModuleExtraParams {
    type V = Seq<(Seq<char>, Seq<char>)>;

    open spec fn view(&self) -> Seq<(Seq<char>, Seq<char>)> {
        params_view(self.pairs@)
    }
}

impl SmartModuleExtraParams {
    /// Key uniqueness, established by the constructor and preserved by
    /// insertion.
    pub open spec fn wf(&self) -> bool {
        params_keys_unique(self@)
    }

    /// An empty parameter mapping.
    pub fn new() -> (r: Self)
        ensures
            r@ == Seq::<(Seq<char>, Seq<char>)>::empty(),
            r.wf(),
    {
        let r = SmartModuleExtraParams { pairs: Vec::new() };
        proof {
            assert(r@ =~= Seq::<(Seq<char>, Seq<char>)>::empty());
        }
        r
    }

    /// Inserts a pair, overwriting the value of an existing key.
    pub fn insert(&mut self, key: String, value: String)
        requires
            old(self).wf(),
        ensures
            final(self)@ == params_insert(old(self)@, key@, value@),
            final(self).wf(),
    {
        let ghost old_view = self@;
        let ghost keyv = key@;
        let ghost valv = value@;
        let n: usize = self.pairs.len();
        let mut i: usize = 0;
        while i < n
            invariant
                n == self.pairs.len(),
                0 <= i <= n,
                *self == *old(self),
                old(self).wf(),
                old_view == old(self)@,
                forall|j: int| 0 <= j < i ==> self@[j].0 != keyv,
                keyv == key@,
                valv == value@,
            decreases n - i,
        {
            if self.pairs[i].0 == key {
                self.pairs[i] = (key, value);
                proof {
                    assert(old_view[i as int].0 == keyv);
                    assert(params_has_key(old_view, keyv));
                    let k = params_key_index(old_view, keyv);
                    assert(0 <= k < old_view.len() && old_view[k].0 == keyv);
                    assert(k == i as int) by {
                        if k < i as int {
                            assert(old_view[k].0 != old_view[i as int].0);
                        } else if k > i as int {
                            assert(old_view[i as int].0 != old_view[k].0);
                        }
                    }
                    assert(self@ =~= params_insert(old_view, keyv, valv));
                }
                return;
            }
            i += 1;
        }
        self.pairs.push((key, value));
        proof {
            assert(!params_has_key(old_view, keyv));
            assert(self@ =~= params_insert(old_view, keyv, valv));
        }
    }
}

impl Default for SmartModuleExtraParams {
    fn default() -> (r: Self)
        ensures
            r@ == Seq::<(Seq<char>, Seq<char>)>::empty(),
            r.wf(),
    {
        SmartModuleExtraParams::new()
    }
}

/// Initial seed data for a stage; an aggregate transform starts from its
/// accumulator buffer.
#[derive(Clone, Debug, PartialEq, Eq)]
pub enum SmartModuleInitialData {
    Empty,
    Aggregate { accumulator: Vec<u8> },
}

impl SmartModuleInitialData {
    /// Seed data carrying an aggregate accumulator.
    pub fn with_aggregate(accumulator: Vec<u8>) -> (r: Self)
        ensures
            r matches SmartModuleInitialData::Aggregate { accumulator: a } && a@ == accumulator@,
    {
        SmartModuleInitialData::Aggregate { accumulator }
    }
}

impl Default for SmartModuleInitialData {
    fn default() -> (r: Self)
        ensures
            r is Empty,
    {
        SmartModuleInitialData::Empty
    }
}

/// One stage's immutable configuration, built once and then consumed by the
/// chain builder.
#[derive(Clone, Debug)]
pub struct SmartModuleConfig {
    pub initial_data: SmartModuleInitialData,
    pub params: SmartModuleExtraParams,
    pub version: Option<i16>,
}

impl SmartModuleConfig {
    pub open spec fn wf(&self) -> bool {
        self.params.wf()
    }

    /// The wire version of this configuration.
    pub open spec fn spec_version(&self) -> i16 {
        match self.version {
            Some(v) => v,
            None => DEFAULT_SMARTENGINE_VERSION,
        }
    }

    /// An empty builder.
    pub fn builder() -> (r: SmartModuleConfigBuilder)
        ensures
            r.initial_data is None,
            r.params is None,
            r.version is None,
    {
        SmartModuleConfigBuilder { initial_data: None, params: None, version: None }
    }

    /// The configured wire version, or the engine default when none was set.
    pub fn version(&self) -> (r: i16)
        ensures
            r == self.spec_version(),
    {
        match self.version {
            Some(v) => v,
            None => DEFAULT_SMARTENGINE_VERSION,
        }
    }
}

/// Builder for [`SmartModuleConfig`]; every field has a default, so
/// [`SmartModuleConfigBuilder::build`] cannot fail.
#[derive(Clone, Debug, Default)]
pub struct SmartModuleConfigBuilder {
    pub initial_data: Option<SmartModuleInitialData>,
    pub params: Option<SmartModuleExtraParams>,
    pub version: Option<i16>,
}

impl SmartModuleConfigBuilder {
    pub open spec fn wf(&self) -> bool {
        match self.params {
            Some(p) => p.wf(),
            None => true,
        }
    }

    /// Sets the initial seed data.
    pub fn initial_data(&mut self, value: SmartModuleInitialData) -> (ret: &mut Self)
        ensures
            *ret == (SmartModuleConfigBuilder { initial_data: Some(value), ..*old(self) }),
            *final(self) == *final(ret),
    {
        self.initial_data = Some(value);
        self
    }

    /// Sets the wire-version override.
    pub fn version(&mut self, value: i16) -> (ret: &mut Self)
        ensures
            *ret == (SmartModuleConfigBuilder { version: Some(value), ..*old(self) }),
            *final(self) == *final(ret),
    {
        self.version = Some(value);
        self
    }

    /// Adds one parameter to the configured mapping.
    pub fn param(&mut self, key: String, value: String) -> (ret: &mut Self)
        requires
            old(self).wf(),
        ensures
            ret.initial_data == old(self).initial_data,
            ret.version == old(self).version,
            ret.params matches Some(p) && p@ == params_insert(
                match old(self).params {
                    Some(q) => q@,
                    None => Seq::<(Seq<char>, Seq<char>)>::empty(),
                },
                key@,
                value@,
            ),
            ret.wf(),
            *final(self) == *final(ret),
    {
        let mut params = match self.params.take() {
            Some(p) => p,
            None => SmartModuleExtraParams::new(),
        };
        params.insert(key, value);
        self.params = Some(params);
        self
    }

    /// Builds the configuration, filling unset fields with their defaults.
    /// Every field has a default, so building cannot fail; the builder is
    /// consumed.
    pub fn build(self) -> (r: SmartModuleConfig)
        requires
            self.wf(),
        ensures
            r.initial_data == match self.initial_data {
                Some(d) => d,
                None => SmartModuleInitialData::Empty,
            },
            r.params@ == match self.params {
                Some(p) => p@,
                None => Seq::<(Seq<char>, Seq<char>)>::empty(),
            },
            r.version == self.version,
            r.wf(),
    {
        SmartModuleConfig {
            initial_data: match self.initial_data {
                Some(d) => d,
                None => SmartModuleInitialData::Empty,
            },
            params: match self.params {
                Some(p) => p,
                None => SmartModuleExtraParams::new(),
            },
            version: self.version,
        }
    }
}

} // verus!
