//! Namespaced keys: an identifier made of a namespace and a key, held in
//! one of three ways and read through one shared trait.

use crate::grammar::{
    is_plain, lemma_written_then_read, parse_key, render, render_key, same_text, split,
};
use std::hash::{Hash, Hasher};
use std::str::FromStr;
use vstd::prelude::*;
use vstd::std_specs::cmp::PartialEqSpec;

verus! {

/// What every representation of a namespaced key offers. A value stands for
/// one `(namespace, key)` pair; every method is stated over that pair.
pub trait NamespacedKey: Hash + Into<(String, String)> {
    /// The `(namespace, key)` pair that the value stands for.
    spec fn pair(&self) -> (Seq<char>, Seq<char>);

    fn get_key(&self) -> (key: &str)
        ensures
            key@ == self.pair().1,
    ;

    fn get_namespace(&self) -> (namespace: &str)
        ensures
            namespace@ == self.pair().0,
    ;

    fn as_tuple(&self) -> (both: (&str, &str))
        ensures
            both.0@ == self.pair().0,
            both.1@ == self.pair().1,
    ;

    /// The textual form: the namespace, one delimiter, the key.
    fn to_string(&self) -> (text: String)
        ensures
            text@ == render_key(self.pair().0, self.pair().1),
    {
        render(self.get_namespace(), self.get_key())
    }

    /// Whatever `into` returns holds the pair, as two owned strings.
    proof fn lemma_into_gives_pair(self, both: (String, String))
        requires
            call_ensures(Self::into, (self,), both),
        ensures
            owns_pair(both, self.pair()),
    ;
}

/// Two owned strings hold the given `(namespace, key)` pair.
pub open spec fn owns_pair(both: (String, String), pair: (Seq<char>, Seq<char>)) -> bool {
    both.0@ == pair.0 && both.1@ == pair.1
}

/// The one way in which reading a text as a key fails: the text has no
/// delimiter, so that no key segment exists.
#[derive(Debug)]
pub struct BadNamespacedKeyError;

impl BadNamespacedKeyError {
    /// The fixed message of the error.
    pub fn to_string(&self) -> (text: String)
        ensures
            text@ == "Bad Namespaced Key"@,
    {
        "Bad Namespaced Key".to_owned()
    }
}

/// A key that owns both of its segments.
#[derive(Debug, Clone, Hash)]
pub struct OwnedNameSpaceKey {
    namespace: String,
    key: String,
}

impl View for OwnedNameSpaceKey {
    type V = (Seq<char>, Seq<char>);

    closed spec fn view(&self) -> (Seq<char>, Seq<char>) {
        (self.namespace@, self.key@)
    }
}

impl OwnedNameSpaceKey {
    /// Makes a key of the two strings as they are given: neither is looked
    /// into, so a segment may be empty or hold a delimiter.
    pub fn new(namespace: String, key: String) -> (made: Self)
        ensures
            made@ == (namespace@, key@),
    {
        Self { namespace, key }
    }

    /// Reads a text as a key. The text is split at its first delimiter; the
    /// key ends at the second one, and what follows that is dropped. Empty
    /// segments are read as they are, and nothing is trimmed. A text without
    /// a delimiter is refused.
    pub fn from_str(s: &str) -> (read: Result<Self, BadNamespacedKeyError>)
        ensures
            match read {
                Ok(key) => parse_key(s@) == Some(key@),
                Err(_) => parse_key(s@) is None,
            },
    {
        match split(s) {
            Some((namespace, key)) => Ok(
                Self { namespace: namespace.to_owned(), key: key.to_owned() },
            ),
            None => Err(BadNamespacedKeyError),
        }
    }
}

impl Into<(String, String)> for OwnedNameSpaceKey {
    fn into(self) -> (both: (String, String))
        ensures
            owns_pair(both, self@),
    {
        (self.namespace, self.key)
    }
}

/// `into` moves the two strings out of the key.
impl vstd::std_specs::convert::IntoSpecImpl<(String, String)> for OwnedNameSpaceKey {
    open spec fn obeys_into_spec() -> bool {
        true
    }

    closed spec fn into_spec(self) -> (String, String) {
        (self.namespace, self.key)
    }
}

impl NamespacedKey for OwnedNameSpaceKey {
    open spec fn pair(&self) -> (Seq<char>, Seq<char>) {
        self@
    }

    fn get_key(&self) -> (key: &str) {
        self.key.as_str()
    }

    fn get_namespace(&self) -> (namespace: &str) {
        self.namespace.as_str()
    }

    fn as_tuple(&self) -> (both: (&str, &str)) {
        (self.namespace.as_str(), self.key.as_str())
    }

    proof fn lemma_into_gives_pair(self, both: (String, String)) {
    }
}

impl FromStr for OwnedNameSpaceKey {
    type Err = BadNamespacedKeyError;

    /// Reads a text as a key, as the function of the same name on the type
    /// does: `str::parse` comes here.
    fn from_str(s: &str) -> (read: Result<Self, Self::Err>)
        ensures
            match read {
                Ok(key) => parse_key(s@) == Some(key@),
                Err(_) => parse_key(s@) is None,
            },
    {
        OwnedNameSpaceKey::from_str(s)
    }
}

impl TryFrom<String> for OwnedNameSpaceKey {
    type Error = BadNamespacedKeyError;

    /// Reads an owned text as a key, as `from_str` reads a borrowed one.
    fn try_from(value: String) -> (read: Result<Self, Self::Error>)
        ensures
            match read {
                Ok(key) => parse_key(value@) == Some(key@),
                Err(_) => parse_key(value@) is None,
            },
    {
        Self::from_str(value.as_str())
    }
}

/// The key that `try_from` makes is known by its pair alone, which the
/// `ensures` of `try_from` states; no value is named for it here.
impl vstd::std_specs::convert::TryFromSpecImpl<String> for OwnedNameSpaceKey {
    open spec fn obeys_try_from_spec() -> bool {
        false
    }

    open spec fn try_from_spec(value: String) -> Result<Self, BadNamespacedKeyError> {
        Err(BadNamespacedKeyError)
    }
}

impl PartialEq for OwnedNameSpaceKey {
    fn eq(&self, other: &Self) -> (same: bool) {
        self.namespace == other.namespace && self.key == other.key
    }
}

impl Eq for OwnedNameSpaceKey {

}

impl vstd::std_specs::cmp::PartialEqSpecImpl for OwnedNameSpaceKey {
    open spec fn obeys_eq_spec() -> bool {
        true
    }

    /// Two keys are equal exactly when their pairs are.
    open spec fn eq_spec(&self, other: &Self) -> bool {
        self@ == other@
    }
}

impl Into<(String, String)> for &OwnedNameSpaceKey {
    fn into(self) -> (both: (String, String))
        ensures
            owns_pair(both, self@),
    {
        (self.namespace.clone(), self.key.clone())
    }
}

/// `into` hands out copies of the two strings of the key.
impl vstd::std_specs::convert::IntoSpecImpl<(String, String)> for &OwnedNameSpaceKey {
    open spec fn obeys_into_spec() -> bool {
        true
    }

    closed spec fn into_spec(self) -> (String, String) {
        (self.namespace, self.key)
    }
}

impl NamespacedKey for &OwnedNameSpaceKey {
    open spec fn pair(&self) -> (Seq<char>, Seq<char>) {
        (**self)@
    }

    fn get_key(&self) -> (key: &str) {
        self.key.as_str()
    }

    fn get_namespace(&self) -> (namespace: &str) {
        self.namespace.as_str()
    }

    fn as_tuple(&self) -> (both: (&str, &str)) {
        (self.namespace.as_str(), self.key.as_str())
    }

    proof fn lemma_into_gives_pair(self, both: (String, String)) {
    }
}

/// A key whose two segments are borrowed from text that lives elsewhere.
#[derive(Debug, Clone, Hash)]
pub struct NameSpaceRef<'a> {
    namespace: &'a str,
    key: &'a str,
}

impl View for NameSpaceRef<'_> {
    type V = (Seq<char>, Seq<char>);

    closed spec fn view(&self) -> (Seq<char>, Seq<char>) {
        (self.namespace@, self.key@)
    }
}

impl<'a> NameSpaceRef<'a> {
    /// Makes a key of the two borrowed texts as they are given.
    pub fn new(namespace: &'a str, key: &'a str) -> (made: Self)
        ensures
            made@ == (namespace@, key@),
    {
        Self { namespace, key }
    }
}

impl Into<(String, String)> for NameSpaceRef<'_> {
    fn into(self) -> (both: (String, String))
        ensures
            owns_pair(both, self@),
    {
        (self.namespace.to_owned(), self.key.to_owned())
    }
}

/// The strings that `into` makes are known by their characters alone, which
/// the `ensures` of `into` states; no value is named for them here.
impl vstd::std_specs::convert::IntoSpecImpl<(String, String)> for NameSpaceRef<'_> {
    open spec fn obeys_into_spec() -> bool {
        false
    }

    closed spec fn into_spec(self) -> (String, String) {
        arbitrary()
    }
}

impl NamespacedKey for NameSpaceRef<'_> {
    open spec fn pair(&self) -> (Seq<char>, Seq<char>) {
        self@
    }

    fn get_key(&self) -> (key: &str) {
        self.key
    }

    fn get_namespace(&self) -> (namespace: &str) {
        self.namespace
    }

    fn as_tuple(&self) -> (both: (&str, &str)) {
        (self.namespace, self.key)
    }

    proof fn lemma_into_gives_pair(self, both: (String, String)) {
    }
}

impl PartialEq for NameSpaceRef<'_> {
    fn eq(&self, other: &Self) -> (same: bool) {
        same_text(self.namespace, other.namespace) && same_text(self.key, other.key)
    }
}

impl Eq for NameSpaceRef<'_> {

}

impl vstd::std_specs::cmp::PartialEqSpecImpl for NameSpaceRef<'_> {
    open spec fn obeys_eq_spec() -> bool {
        true
    }

    /// Two keys are equal exactly when their pairs are.
    open spec fn eq_spec(&self, other: &Self) -> bool {
        self@ == other@
    }
}

/// A key in any of its three representations.
#[derive(Debug, Clone)]
pub enum NameSpaceKey<'key> {
    /// The key owns its segments.
    Owned(OwnedNameSpaceKey),
    /// The key is an owned key that lives elsewhere.
    RefOwned(&'key OwnedNameSpaceKey),
    /// The key's segments are borrowed from text that lives elsewhere.
    Ref(NameSpaceRef<'key>),
}

impl View for NameSpaceKey<'_> {
    type V = (Seq<char>, Seq<char>);

    open spec fn view(&self) -> (Seq<char>, Seq<char>) {
        match self {
            NameSpaceKey::Owned(owned) => owned@,
            NameSpaceKey::RefOwned(owned) => owned@,
            NameSpaceKey::Ref(r) => r@,
        }
    }
}

impl<'key> NameSpaceKey<'key> {
    /// Reads a text as a key, as `OwnedNameSpaceKey::from_str` does. What is
    /// read owns its segments, whatever the text was borrowed from.
    pub fn from_text(text: &str) -> (read: Result<NameSpaceKey<'key>, BadNamespacedKeyError>)
        ensures
            match read {
                Ok(key) => key is Owned && parse_key(text@) == Some(key@),
                Err(_) => parse_key(text@) is None,
            },
    {
        match OwnedNameSpaceKey::from_str(text) {
            Ok(owned) => Ok(NameSpaceKey::Owned(owned)),
            Err(error) => Err(error),
        }
    }
}

impl Into<(String, String)> for NameSpaceKey<'_> {
    fn into(self) -> (both: (String, String))
        ensures
            owns_pair(both, self@),
    {
        match self {
            NameSpaceKey::Owned(owned) => owned.into(),
            NameSpaceKey::RefOwned(owned) => owned.into(),
            NameSpaceKey::Ref(r) => r.into(),
        }
    }
}

/// The strings that `into` makes are known by their characters alone, which
/// the `ensures` of `into` states; no value is named for them here.
impl vstd::std_specs::convert::IntoSpecImpl<(String, String)> for NameSpaceKey<'_> {
    open spec fn obeys_into_spec() -> bool {
        false
    }

    closed spec fn into_spec(self) -> (String, String) {
        arbitrary()
    }
}

impl NamespacedKey for NameSpaceKey<'_> {
    open spec fn pair(&self) -> (Seq<char>, Seq<char>) {
        self@
    }

    fn get_key(&self) -> (key: &str) {
        match self {
            NameSpaceKey::Owned(owned) => owned.get_key(),
            NameSpaceKey::RefOwned(owned) => owned.get_key(),
            NameSpaceKey::Ref(r) => r.get_key(),
        }
    }

    fn get_namespace(&self) -> (namespace: &str) {
        match self {
            NameSpaceKey::Owned(owned) => owned.get_namespace(),
            NameSpaceKey::RefOwned(owned) => owned.get_namespace(),
            NameSpaceKey::Ref(r) => r.get_namespace(),
        }
    }

    fn as_tuple(&self) -> (both: (&str, &str)) {
        match self {
            NameSpaceKey::Owned(owned) => owned.as_tuple(),
            NameSpaceKey::RefOwned(owned) => owned.as_tuple(),
            NameSpaceKey::Ref(r) => r.as_tuple(),
        }
    }

    fn to_string(&self) -> (text: String) {
        match self {
            NameSpaceKey::Owned(owned) => owned.to_string(),
            NameSpaceKey::RefOwned(owned) => owned.to_string(),
            NameSpaceKey::Ref(r) => r.to_string(),
        }
    }

    proof fn lemma_into_gives_pair(self, both: (String, String)) {
    }
}

impl PartialEq for NameSpaceKey<'_> {
    fn eq(&self, other: &Self) -> (same: bool) {
        same_text(self.get_namespace(), other.get_namespace()) && same_text(
            self.get_key(),
            other.get_key(),
        )
    }
}

impl Eq for NameSpaceKey<'_> {

}

impl vstd::std_specs::cmp::PartialEqSpecImpl for NameSpaceKey<'_> {
    open spec fn obeys_eq_spec() -> bool {
        true
    }

    /// Two keys are equal exactly when their pairs are, whichever way each
    /// of them is held.
    open spec fn eq_spec(&self, other: &Self) -> bool {
        self@ == other@
    }
}

impl Hash for NameSpaceKey<'_> {
    /// Feeds the namespace and then the key to the hasher, so that keys with
    /// equal pairs hash alike, whichever way each of them is held.
    fn hash<H: Hasher>(&self, state: &mut H) {
        self.get_namespace().hash(state);
        self.get_key().hash(state);
    }
}

/// The readings of one key agree, whichever way the key is held: `as_tuple`
/// hands out what `get_namespace` and `get_key` hand out one by one, and
/// `to_string` writes those two with one delimiter between them.
pub proof fn lemma_readings_agree<K: NamespacedKey>(
    key: &K,
    namespace: &str,
    name: &str,
    both: (&str, &str),
    text: String,
)
    requires
        call_ensures(K::get_namespace, (key,), namespace),
        call_ensures(K::get_key, (key,), name),
        call_ensures(K::as_tuple, (key,), both),
        call_ensures(K::to_string, (key,), text),
    ensures
        both.0@ == namespace@,
        both.1@ == name@,
        text@ == render_key(namespace@, name@),
{
}

/// A key made from two strings reads as those two strings: whatever `new`
/// returns for a namespace and a key, `as_tuple` hands that namespace and
/// that key out again.
pub proof fn lemma_new_then_as_tuple(
    namespace: String,
    key: String,
    made: OwnedNameSpaceKey,
    both: (&str, &str),
)
    requires
        call_ensures(OwnedNameSpaceKey::new, (namespace, key), made),
        call_ensures(OwnedNameSpaceKey::as_tuple, (&made,), both),
    ensures
        both.0@ == namespace@,
        both.1@ == key@,
{
}

/// Keys are equal exactly when they stand for the same pair, whichever way
/// each of them is held and however it was made.
pub proof fn lemma_equality_goes_by_pair(left: NameSpaceKey, right: NameSpaceKey)
    ensures
        left.eq_spec(&right) <==> left.pair() == right.pair(),
        left.eq_spec(&left),
        left.eq_spec(&right) <==> right.eq_spec(&left),
{
}

/// Owned keys are equal exactly when they stand for the same pair.
pub proof fn lemma_owned_equality_goes_by_pair(left: OwnedNameSpaceKey, right: OwnedNameSpaceKey)
    ensures
        left.eq_spec(&right) <==> left.pair() == right.pair(),
{
}

/// From text to key and back. Where two plain segments are written with one
/// delimiter between them, `from_str` reads the text as exactly those two
/// segments, and `to_string` of what was read gives the text back.
pub proof fn lemma_text_read_then_written(
    namespace: Seq<char>,
    key: Seq<char>,
    text: &str,
    read: Result<OwnedNameSpaceKey, BadNamespacedKeyError>,
    written: String,
)
    requires
        is_plain(namespace),
        is_plain(key),
        text@ == render_key(namespace, key),
        call_ensures(OwnedNameSpaceKey::from_str, (text,), read),
        read is Ok ==> call_ensures(OwnedNameSpaceKey::to_string, (&read->Ok_0,), written),
    ensures
        read is Ok,
        read->Ok_0@ == (namespace, key),
        written@ == text@,
{
    lemma_written_then_read(namespace, key);
}

/// From an owned key to text and back. Where both segments of the key are
/// plain, the text that `to_string` writes for it is read by `from_str` as a
/// key equal to it.
pub proof fn lemma_owned_written_then_read(
    key: OwnedNameSpaceKey,
    written: String,
    text: &str,
    read: Result<OwnedNameSpaceKey, BadNamespacedKeyError>,
)
    requires
        is_plain(key.pair().0),
        is_plain(key.pair().1),
        call_ensures(OwnedNameSpaceKey::to_string, (&key,), written),
        text@ == written@,
        call_ensures(OwnedNameSpaceKey::from_str, (text,), read),
    ensures
        read is Ok,
        read->Ok_0.eq_spec(&key),
{
    lemma_written_then_read(key.pair().0, key.pair().1);
}

/// From a key in any representation to text and back. Where both segments
/// of the key are plain, the text that `to_string` writes for it is read by
/// `from_text` as a key equal to it, held as `Owned`.
pub proof fn lemma_key_written_then_read(
    key: NameSpaceKey,
    written: String,
    text: &str,
    read: Result<NameSpaceKey, BadNamespacedKeyError>,
)
    requires
        is_plain(key.pair().0),
        is_plain(key.pair().1),
        call_ensures(NameSpaceKey::to_string, (&key,), written),
        text@ == written@,
        call_ensures(NameSpaceKey::from_text, (text,), read),
    ensures
        read is Ok,
        read->Ok_0 is Owned,
        read->Ok_0.eq_spec(&key),
{
    lemma_written_then_read(key.pair().0, key.pair().1);
}

} // verus!
