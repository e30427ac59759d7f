//! Wire-ready parameter bindings and the request payloads that carry them:
//! the assembler that turns one encodable value into a binding record, and
//! the name-keyed bindings map handed to the request envelope.

use crate::bindings::ToSql;
use crate::buffer::{new_buffer, take_text};
use crate::errors::BindingError;
use crate::tags::SnowflakeType;
use vstd::pervasive::VecAdditionalExecFns;
use vstd::prelude::*;

verus! {

/// A request with no payload.
pub struct EmptyRequest {}

/// The text payload of one binding: a single text, or an ordered list of
/// texts for batch parameter sets. The list shape is never produced by the
/// encoders; it exists for direct external construction.
pub enum BindingValue {
    SingleBind(String),
    MultiBind(Vec<String>),
}

/// One named parameter as the wire wants it: a type tag, an optional format
/// hint (`None` rather than an empty string when no hint applies), and the
/// text payload.
pub struct ParameterBinding {
    pub type_: Option<SnowflakeType>,
    pub fmt: Option<String>,
    pub value: BindingValue,
}

impl ParameterBinding {
    /// Builds the record for one encoded value: the tag is always set, an
    /// empty format hint is normalized to absent, and the text becomes the
    /// single bind value. Total: every encoded value yields its record.
    pub fn assemble_record(tag: SnowflakeType, hint: String, text: String) -> (pb:
        ParameterBinding)
        ensures
            pb.type_ == Some(tag),
            hint@.len() == 0 ==> pb.fmt is None,
            hint@.len() > 0 ==> (pb.fmt matches Some(f) && f@ == hint@),
            pb.value matches BindingValue::SingleBind(s) && s@ == text@,
    {
        let fmt = if hint.as_str().unicode_len() == 0 {
            None
        } else {
            Some(hint)
        };
        ParameterBinding { type_: Some(tag), fmt, value: BindingValue::SingleBind(text) }
    }

    /// Assembles one wire-ready binding from one boxed encodable value: a
    /// fresh buffer receives the value's text, the buffer is decoded as
    /// UTF-8, the tag is always set, and an empty format hint is normalized
    /// to absent. A value whose encoding is guaranteed always yields its
    /// record: the encoders keep the buffer well-formed, so the decode step
    /// cannot fail on it. Failures are local to this value; an absent value
    /// yields an empty text payload under its tag.
    pub fn try_from<T: ToSql>(value: Box<T>) -> (r: Result<ParameterBinding, BindingError>)
        ensures
            value.spec_encodes() ==> r is Ok,
            r matches Ok(pb) ==> {
                &&& pb.type_ == Some(value.spec_sql_type())
                &&& (value.spec_format().len() == 0 ==> pb.fmt is None)
                &&& (value.spec_format().len() > 0 ==> (pb.fmt matches Some(f) && f@
                    == value.spec_format()))
                &&& pb.value matches BindingValue::SingleBind(s) && s@ == value.spec_text()
            },
            r is Err ==> !value.spec_encodes(),
    {
        let mut buffer = new_buffer();
        match value.to_sql(&mut buffer) {
            Err(e) => Err(e),
            Ok(_) => match take_text(&buffer) {
                Err(e) => Err(BindingError::Utf8EncodingError(e)),
                Ok(params) => Ok(
                    Self::assemble_record(value.sql_type(), value.encode_format(), params),
                ),
            },
        }
    }
}

/// The name-keyed map of assembled bindings attached to one query execution
/// request. Keys are unique; the order of entries carries no meaning.
pub struct Bindings {
    entries: Vec<(String, ParameterBinding)>,
}

impl Bindings {
    /// The map an entry list stands for; a later entry for the same name
    /// would win, and [`Bindings::wf`] rules such duplicates out.
    pub closed spec fn entries_map(s: Seq<(String, ParameterBinding)>) -> Map<
        Seq<char>,
        ParameterBinding,
    >
        decreases s.len(),
    {
        if s.len() == 0 {
            Map::empty()
        } else {
            Self::entries_map(s.drop_last()).insert(s.last().0@, s.last().1)
        }
    }

    /// The bindings by name.
    pub closed spec fn view(&self) -> Map<Seq<char>, ParameterBinding> {
        Self::entries_map(self.entries@)
    }

    /// Well-formed: no two entries share a name.
    pub closed spec fn wf(&self) -> bool {
        forall|i: int, j: int|
            0 <= i < j < self.entries@.len() ==> self.entries@[i].0@ != self.entries@[j].0@
    }

    /// An empty bindings map.
    pub fn new() -> (r: Bindings)
        ensures
            r.wf(),
            r@ == Map::<Seq<char>, ParameterBinding>::empty(),
    {
        Bindings { entries: Vec::new() }
    }

    /// How many names are bound.
    pub fn len(&self) -> (n: usize)
        requires
            self.wf(),
        ensures
            n == self@.dom().len(),
    {
        proof {
            Self::lemma_entries_map_len(self.entries@);
        }
        self.entries.len()
    }

    /// The position of a name's entry, if the name is bound.
    fn find_index(&self, name: &String) -> (r: Option<usize>)
        ensures
            match r {
                Some(i) => i < self.entries@.len() && self.entries@[i as int].0@ == name@,
                None => forall|k: int|
                    0 <= k < self.entries@.len() ==> self.entries@[k].0@ != name@,
            },
    {
        let mut i: usize = 0;
        while i < self.entries.len()
            invariant
                i <= self.entries@.len(),
                forall|k: int| 0 <= k < i ==> self.entries@[k].0@ != name@,
            decreases self.entries@.len() - i,
        {
            if self.entries[i].0 == *name {
                return Some(i);
            }
            i = i + 1;
        }
        None
    }

    /// Binds `name` to `binding`, replacing any earlier binding of the name.
    pub fn insert(&mut self, name: String, binding: ParameterBinding)
        requires
            old(self).wf(),
        ensures
            final(self).wf(),
            final(self)@ == old(self)@.insert(name@, binding),
    {
        match self.find_index(&name) {
            Some(i) => {
                proof {
                    Self::lemma_entries_map_update(self.entries@, i as int, name, binding);
                }
                self.entries.set(i, (name, binding));
            },
            None => {
                self.entries.push((name, binding));
                proof {
                    assert(self.entries@.drop_last() =~= old(self).entries@);
                }
            },
        }
    }

    /// The binding of a name, if the name is bound.
    pub fn get(&self, name: &String) -> (r: Option<&ParameterBinding>)
        requires
            self.wf(),
        ensures
            match r {
                Some(pb) => self@.contains_key(name@) && *pb == self@[name@],
                None => !self@.contains_key(name@),
            },
    {
        match self.find_index(name) {
            Some(i) => {
                proof {
                    Self::lemma_entries_map_index(self.entries@, i as int);
                }
                Some(&self.entries[i].1)
            },
            None => {
                proof {
                    Self::lemma_entries_map_dom(self.entries@, name@);
                }
                None
            },
        }
    }

    /// The entry list itself, for callers that serialize the map: one entry
    /// per bound name, each agreeing with the map, no name repeated — the
    /// whole map, up to order.
    pub fn entry_list(&self) -> (r: &Vec<(String, ParameterBinding)>)
        requires
            self.wf(),
        ensures
            forall|i: int|
                0 <= i < r@.len() ==> self@.contains_key(#[trigger] r@[i].0@) && self@[r@[i].0@]
                    == r@[i].1,
            r@.len() == self@.dom().len(),
            forall|i: int, j: int| 0 <= i < j < r@.len() ==> r@[i].0@ != r@[j].0@,
    {
        proof {
            Self::lemma_entries_map_len(self.entries@);
            assert forall|i: int| 0 <= i < self.entries@.len() implies self@.contains_key(
                #[trigger] self.entries@[i].0@,
            ) && self@[self.entries@[i].0@] == self.entries@[i].1 by {
                Self::lemma_entries_map_index(self.entries@, i);
            }
        }
        &self.entries
    }

    /// An entry's name and record are in the map the list stands for —
    /// provided no later entry reuses the name.
    proof fn lemma_entries_map_index(s: Seq<(String, ParameterBinding)>, i: int)
        requires
            0 <= i < s.len(),
            forall|p: int, q: int| 0 <= p < q < s.len() ==> s[p].0@ != s[q].0@,
        ensures
            Self::entries_map(s).contains_key(s[i].0@),
            Self::entries_map(s)[s[i].0@] == s[i].1,
        decreases s.len(),
    {
        if i < s.len() - 1 {
            Self::lemma_entries_map_index(s.drop_last(), i);
        }
    }

    /// A name that no entry carries is not in the map the list stands for.
    proof fn lemma_entries_map_dom(s: Seq<(String, ParameterBinding)>, name: Seq<char>)
        requires
            forall|k: int| 0 <= k < s.len() ==> s[k].0@ != name,
        ensures
            !Self::entries_map(s).contains_key(name),
        decreases s.len(),
    {
        if s.len() > 0 {
            Self::lemma_entries_map_dom(s.drop_last(), name);
        }
    }

    /// With unique names, the map has exactly one key per entry.
    proof fn lemma_entries_map_len(s: Seq<(String, ParameterBinding)>)
        requires
            forall|p: int, q: int| 0 <= p < q < s.len() ==> s[p].0@ != s[q].0@,
        ensures
            Self::entries_map(s).dom().len() == s.len(),
            Self::entries_map(s).dom().finite(),
        decreases s.len(),
    {
        if s.len() > 0 {
            Self::lemma_entries_map_len(s.drop_last());
            Self::lemma_entries_map_dom(s.drop_last(), s.last().0@);
        }
    }

    /// Replacing the entry that carries a name updates the map at that name.
    proof fn lemma_entries_map_update(
        s: Seq<(String, ParameterBinding)>,
        i: int,
        name: String,
        binding: ParameterBinding,
    )
        requires
            0 <= i < s.len(),
            s[i].0@ == name@,
            forall|p: int, q: int| 0 <= p < q < s.len() ==> s[p].0@ != s[q].0@,
        ensures
            Self::entries_map(s.update(i, (name, binding))) == Self::entries_map(s).insert(
                name@,
                binding,
            ),
        decreases s.len(),
    {
        let t = s.update(i, (name, binding));
        if i == s.len() - 1 {
            assert(t.drop_last() =~= s.drop_last());
            assert(Self::entries_map(t) =~= Self::entries_map(s).insert(name@, binding));
        } else {
            assert(t.drop_last() =~= s.drop_last().update(i, (name, binding)));
            Self::lemma_entries_map_update(s.drop_last(), i, name, binding);
            assert(Self::entries_map(t) =~= Self::entries_map(s).insert(name@, binding));
        }
    }
}

/// One query execution request, carrying the statement text and its bindings.
pub struct ExecRequest {
    pub sql_text: String,
    pub async_exec: bool,
    pub sequence_id: u64,
    pub is_internal: bool,
    pub bindings: Option<Bindings>,
}

/// A login request wrapping one kind of credential payload.
pub struct LoginRequest<T> {
    pub data: T,
}

pub type PasswordLoginRequest = LoginRequest<PasswordRequestData>;

pub type CertLoginRequest = LoginRequest<CertRequestData>;

/// The fields every login payload carries.
pub struct LoginRequestCommon {
    pub client_app_id: String,
    pub client_app_version: String,
    pub svn_revision: String,
    pub account_name: String,
    pub login_name: String,
    pub session_parameters: SessionParameters,
    pub client_environment: ClientEnvironment,
}

/// Session-level switches sent with a login.
pub struct SessionParameters {
    pub client_validate_default_parameters: bool,
}

/// What the client reports about itself and its host.
pub struct ClientEnvironment {
    pub application: String,
    pub os: String,
    pub os_version: String,
    pub ocsp_mode: String,
}

/// Password credentials joined with the common login fields.
pub struct PasswordRequestData {
    pub login_request_common: LoginRequestCommon,
    pub password: String,
}

/// Certificate credentials joined with the common login fields.
pub struct CertRequestData {
    pub login_request_common: LoginRequestCommon,
    pub authenticator: String,
    pub token: String,
}

/// Asks the service to renew an existing session token.
pub struct RenewSessionRequest {
    pub old_session_token: String,
    pub request_type: String,
}

} // verus!
