//! JSON values as the gateway reads and writes them.

use vstd::prelude::*;

verus! {

/// The mathematical content of a JSON value. A number is the bit pattern of
/// the IEEE 754 double that stands for it.
pub enum Json {
    Null,
    Bool(bool),
    Number(u64),
    String(Seq<char>),
    Array(Seq<Json>),
    Object(Map<Seq<char>, Json>),
}

impl Json {
    /// The boolean, where the value is one.
    pub open spec fn as_bool(self) -> Option<bool> {
        match self {
            Json::Bool(b) => Some(b),
            _ => None,
        }
    }

    /// The number's bits, where the value is a number.
    pub open spec fn as_number(self) -> Option<u64> {
        match self {
            Json::Number(n) => Some(n),
            _ => None,
        }
    }

    /// The characters, where the value is a string.
    pub open spec fn as_text(self) -> Option<Seq<char>> {
        match self {
            Json::String(s) => Some(s),
            _ => None,
        }
    }

    /// The strings in order, where the value is an array of strings only.
    pub open spec fn as_texts(self) -> Option<Seq<Seq<char>>> {
        match self {
            Json::Array(items) => if forall|i: int|
                0 <= i < items.len() ==> (#[trigger] items[i]) is String {
                Some(Seq::new(items.len(), |i: int| items[i]->String_0))
            } else {
                None
            },
            _ => None,
        }
    }

    /// The members, where the value is an object.
    pub open spec fn as_object(self) -> Option<Map<Seq<char>, Json>> {
        match self {
            Json::Object(m) => Some(m),
            _ => None,
        }
    }
}

/// What `key` is bound to in `m`, if anything.
pub open spec fn member(m: Map<Seq<char>, Json>, key: Seq<char>) -> Option<Json> {
    if m.contains_key(key) {
        Some(m[key])
    } else {
        None
    }
}

/// The boolean bound to `key`; nothing where `key` is unbound or bound to
/// a value of another kind.
pub open spec fn member_bool(m: Map<Seq<char>, Json>, key: Seq<char>) -> Option<bool> {
    match member(m, key) {
        Some(j) => j.as_bool(),
        None => None,
    }
}

/// The number bound to `key`, as `member_bool` for booleans.
pub open spec fn member_number(m: Map<Seq<char>, Json>, key: Seq<char>) -> Option<u64> {
    match member(m, key) {
        Some(j) => j.as_number(),
        None => None,
    }
}

/// The string bound to `key`, as `member_bool` for booleans.
pub open spec fn member_text(m: Map<Seq<char>, Json>, key: Seq<char>) -> Option<Seq<char>> {
    match member(m, key) {
        Some(j) => j.as_text(),
        None => None,
    }
}

/// The array of strings bound to `key`, as `member_bool` for booleans.
pub open spec fn member_texts(m: Map<Seq<char>, Json>, key: Seq<char>) -> Option<
    Seq<Seq<char>>,
> {
    match member(m, key) {
        Some(j) => j.as_texts(),
        None => None,
    }
}

/// A number that may be left out: unset where `key` is unbound or bound
/// to null, set where it is bound to a number, and no reading at all where
/// it is bound to anything else.
pub open spec fn member_optional_number(m: Map<Seq<char>, Json>, key: Seq<char>) -> Option<
    Option<u64>,
> {
    match member(m, key) {
        None => Some(None),
        Some(Json::Null) => Some(None),
        Some(Json::Number(n)) => Some(Some(n)),
        Some(_) => None,
    }
}

/// A boolean that may be left out, as `member_optional_number` for
/// numbers.
pub open spec fn member_optional_bool(m: Map<Seq<char>, Json>, key: Seq<char>) -> Option<
    Option<bool>,
> {
    match member(m, key) {
        None => Some(None),
        Some(Json::Null) => Some(None),
        Some(Json::Bool(b)) => Some(Some(b)),
        Some(_) => None,
    }
}

/// A string that may be left out, as `member_optional_number` for numbers.
pub open spec fn member_optional_text(m: Map<Seq<char>, Json>, key: Seq<char>) -> Option<
    Option<Seq<char>>,
> {
    match member(m, key) {
        None => Some(None),
        Some(Json::Null) => Some(None),
        Some(Json::String(s)) => Some(Some(s)),
        Some(_) => None,
    }
}

/// `m` with `key` bound to `value`, where there is a value.
pub open spec fn with_member(m: Map<Seq<char>, Json>, key: Seq<char>, value: Option<Json>) -> Map<
    Seq<char>,
    Json,
> {
    match value {
        Some(j) => m.insert(key, j),
        None => m,
    }
}

/// An optional string as an optional JSON string.
pub open spec fn text_json(s: Option<Seq<char>>) -> Option<Json> {
    match s {
        Some(s) => Some(Json::String(s)),
        None => None,
    }
}

/// An optional number as an optional JSON number.
pub open spec fn number_json(n: Option<u64>) -> Option<Json> {
    match n {
        Some(n) => Some(Json::Number(n)),
        None => None,
    }
}

/// An optional boolean as an optional JSON boolean.
pub open spec fn bool_json(b: Option<bool>) -> Option<Json> {
    match b {
        Some(b) => Some(Json::Bool(b)),
        None => None,
    }
}

/// A list of strings as a JSON array.
pub open spec fn texts_json(texts: Seq<Seq<char>>) -> Json {
    Json::Array(Seq::new(texts.len(), |i: int| Json::String(texts[i])))
}

/// An optional list of strings as an optional JSON array.
pub open spec fn opt_texts_json(texts: Option<Seq<Seq<char>>>) -> Option<Json> {
    match texts {
        Some(t) => Some(texts_json(t)),
        None => None,
    }
}

/// A JSON number, held as the bits of a finite IEEE 754 double.
#[derive(Clone, Copy, Debug, PartialEq, Eq)]
pub struct JsonNumber {
    bits: u64,
}

impl View for JsonNumber {
    type V = u64;

    closed spec fn view(&self) -> u64 {
        self.bits
    }
}

/// Whether `bits` is the pattern of a finite double: its exponent field is
/// not all ones.
pub open spec fn is_finite_double(bits: u64) -> bool {
    (bits >> 52) & 0x7ff != 0x7ff
}

impl JsonNumber {
    #[verifier::type_invariant]
    spec fn finite(self) -> bool {
        is_finite_double(self.bits)
    }

    /// Accepts the bit patterns of finite doubles; infinities and NaNs are
    /// not JSON numbers.
    pub fn from_bits(bits: u64) -> (r: Option<JsonNumber>)
        ensures
            r is Some <==> is_finite_double(bits),
            r matches Some(n) ==> n@ == bits,
    {
        if (bits >> 52) & 0x7ff != 0x7ff {
            Some(JsonNumber { bits })
        } else {
            None
        }
    }

    /// The bits of the double that stands for the number.
    pub fn to_bits(&self) -> (r: u64)
        ensures
            r == self@,
            is_finite_double(r),
    {
        proof {
            use_type_invariant(self);
        }
        self.bits
    }
}

/// A JSON value.
#[derive(Debug, PartialEq)]
pub enum JsonValue {
    Null,
    Bool(bool),
    Number(JsonNumber),
    String(String),
    Array(Vec<JsonValue>),
    Object(JsonObject),
}

/// One member of a JSON object.
#[derive(Debug, PartialEq)]
pub struct JsonMember {
    pub key: String,
    pub value: JsonValue,
}

/// A JSON object: a mapping from member names to values. Where a name
/// occurs twice among the members, the later member counts.
#[derive(Debug, PartialEq)]
pub struct JsonObject {
    pub members: Vec<JsonMember>,
}

/// The values of the first `n` items, in order.
pub open spec fn items_model(items: Vec<JsonValue>, n: nat) -> Seq<Json>
    decreases items, n,
{
    if n == 0 || n > items.len() {
        Seq::empty()
    } else {
        items_model(items, (n - 1) as nat).push(items[n - 1].model())
    }
}

/// The mapping that the first `n` members denote; a later member replaces
/// an earlier one of the same name.
pub open spec fn members_model(members: Vec<JsonMember>, n: nat) -> Map<Seq<char>, Json>
    decreases members, n,
{
    if n == 0 || n > members.len() {
        Map::empty()
    } else {
        members_model(members, (n - 1) as nat).insert(
            members[n - 1].key@,
            members[n - 1].value.model(),
        )
    }
}

impl JsonValue {
    /// The content of the value.
    pub open spec fn model(self) -> Json
        decreases self, 0nat,
    {
        match self {
            JsonValue::Null => Json::Null,
            JsonValue::Bool(b) => Json::Bool(b),
            JsonValue::Number(n) => Json::Number(n@),
            JsonValue::String(s) => Json::String(s@),
            JsonValue::Array(items) => Json::Array(items_model(items, items.len() as nat)),
            JsonValue::Object(o) => Json::Object(members_model(o.members, o.members.len() as nat)),
        }
    }
}

impl View for JsonValue {
    type V = Json;

    open spec fn view(&self) -> Json {
        self.model()
    }
}

impl JsonObject {
    /// Whether no name occurs twice among the members.
    pub open spec fn names_distinct(&self) -> bool {
        forall|i: int, j: int|
            0 <= i < j < self.members.len() ==> (#[trigger] self.members[i]).key@ != (
            #[trigger] self.members[j]).key@
    }
}

impl View for JsonObject {
    type V = Map<Seq<char>, Json>;

    open spec fn view(&self) -> Map<Seq<char>, Json> {
        members_model(self.members, self.members.len() as nat)
    }
}

/// The bits of an optional number.
pub open spec fn bits_of(n: Option<JsonNumber>) -> Option<u64> {
    match n {
        Some(n) => Some(n@),
        None => None,
    }
}

/// The characters of an optional string.
pub open spec fn chars_of(s: Option<String>) -> Option<Seq<char>> {
    match s {
        Some(s) => Some(s@),
        None => None,
    }
}

/// The characters of each string of a list.
pub open spec fn texts_of(v: Vec<String>) -> Seq<Seq<char>> {
    Seq::new(v.len() as nat, |i: int| v[i]@)
}

/// The characters of each string of an optional list.
pub open spec fn opt_texts_of(v: Option<Vec<String>>) -> Option<Seq<Seq<char>>> {
    match v {
        Some(v) => Some(texts_of(v)),
        None => None,
    }
}

/// The index of the last of the first `n` members that is named `key`,
/// or -1 where none is.
pub open spec fn last_position(members: Vec<JsonMember>, key: Seq<char>, n: nat) -> int
    decreases n,
{
    if n == 0 || n > members.len() {
        -1
    } else if members[n - 1].key@ == key {
        n - 1
    } else {
        last_position(members, key, (n - 1) as nat)
    }
}

/// The members after `member` was inserted: it stands in the place of the
/// last member of its name, or behind all members where there is none of
/// its name.
pub open spec fn inserted(members: Vec<JsonMember>, member: JsonMember) -> Seq<JsonMember> {
    let at: int = last_position(members, member.key@, members.len() as nat);
    if at >= 0 {
        members@.update(at, member)
    } else {
        members@.push(member)
    }
}

/// `items_model` has one value for each item, in the items' order.
pub proof fn lemma_items_model(items: Vec<JsonValue>, n: nat)
    requires
        n <= items.len(),
    ensures
        items_model(items, n).len() == n,
        forall|i: int| 0 <= i < n ==> #[trigger] items_model(items, n)[i] == items[i].model(),
    decreases n,
{
    if n > 0 {
        lemma_items_model(items, (n - 1) as nat);
    }
}

/// `last_position` is within the first `n` members, and names a member
/// called `key` after which no other is.
pub proof fn lemma_last_position(members: Vec<JsonMember>, key: Seq<char>, n: nat)
    requires
        n <= members.len(),
    ensures
        -1 <= last_position(members, key, n) < n,
        last_position(members, key, n) >= 0 ==> members[last_position(members, key, n)].key@
            == key,
        forall|j: int|
            last_position(members, key, n) < j < n ==> (#[trigger] members[j]).key@ != key,
    decreases n,
{
    if n > 0 && members[n - 1].key@ != key {
        lemma_last_position(members, key, (n - 1) as nat);
    }
}

/// A name is bound by the first `n` members exactly where one of them
/// carries it, and then to the value of the last that does.
pub proof fn lemma_members_model(members: Vec<JsonMember>, key: Seq<char>, n: nat)
    requires
        n <= members.len(),
    ensures
        members_model(members, n).contains_key(key) <==> last_position(members, key, n) >= 0,
        last_position(members, key, n) >= 0 ==> members_model(members, n)[key]
            == members[last_position(members, key, n)].value.model(),
    decreases n,
{
    if n > 0 {
        lemma_members_model(members, key, (n - 1) as nat);
    }
}

/// Members that agree on their first `n` places denote the same mapping
/// there.
pub proof fn lemma_members_model_prefix(a: Vec<JsonMember>, b: Vec<JsonMember>, n: nat)
    requires
        n <= a.len(),
        n <= b.len(),
        forall|i: int| 0 <= i < n ==> a[i] == b[i],
    ensures
        members_model(a, n) == members_model(b, n),
    decreases n,
{
    if n > 0 {
        lemma_members_model_prefix(a, b, (n - 1) as nat);
    }
}

/// Members with the same names in the same places have the same last
/// position for every name.
pub proof fn lemma_last_position_by_names(
    a: Vec<JsonMember>,
    b: Vec<JsonMember>,
    key: Seq<char>,
    n: nat,
)
    requires
        n <= a.len(),
        n <= b.len(),
        forall|i: int| 0 <= i < n ==> (#[trigger] a[i]).key@ == b[i].key@,
    ensures
        last_position(a, key, n) == last_position(b, key, n),
    decreases n,
{
    if n > 0 {
        assert(a[n - 1].key@ == b[n - 1].key@);
        lemma_last_position_by_names(a, b, key, (n - 1) as nat);
    }
}

/// An array holds the values of its items, in order.
pub proof fn lemma_array_model(items: Vec<JsonValue>, values: Seq<Json>)
    requires
        items.len() == values.len(),
        forall|i: int| 0 <= i < values.len() ==> (#[trigger] items[i])@ == values[i],
    ensures
        JsonValue::Array(items)@ == Json::Array(values),
{
    lemma_items_model(items, items.len() as nat);
    assert(items_model(items, items.len() as nat) =~= values);
}

impl JsonValue {
    /// The boolean, where the value is one.
    pub fn as_bool(&self) -> (r: Option<bool>)
        ensures
            r == self@.as_bool(),
    {
        match self {
            JsonValue::Bool(b) => Some(*b),
            _ => None,
        }
    }

    /// The number, where the value is one.
    pub fn as_number(&self) -> (r: Option<JsonNumber>)
        ensures
            bits_of(r) == self@.as_number(),
    {
        match self {
            JsonValue::Number(n) => Some(*n),
            _ => None,
        }
    }

    /// A copy of the string, where the value is one.
    pub fn as_string(&self) -> (r: Option<String>)
        ensures
            chars_of(r) == self@.as_text(),
    {
        match self {
            JsonValue::String(s) => Some(s.clone()),
            _ => None,
        }
    }

    /// Copies of the strings, where the value is an array that holds
    /// nothing but strings.
    pub fn as_strings(&self) -> (r: Option<Vec<String>>)
        ensures
            opt_texts_of(r) == self@.as_texts(),
    {
        match self {
            JsonValue::Array(items) => {
                let n: usize = items.len();
                let ghost model = items_model(*items, n as nat);
                proof {
                    lemma_items_model(*items, n as nat);
                }
                let mut out: Vec<String> = Vec::new();
                let mut i: usize = 0;
                while i < n
                    invariant
                        i <= n,
                        n == items.len(),
                        self@ == Json::Array(model),
                        model.len() == n,
                        forall|j: int| 0 <= j < n ==> #[trigger] model[j] == items[j].model(),
                        out.len() == i,
                        forall|j: int|
                            0 <= j < i ==> (#[trigger] model[j]) is String && out[j]@
                                == model[j]->String_0,
                    decreases n - i,
                {
                    match &items[i] {
                        JsonValue::String(s) => {
                            out.push(s.clone());
                        },
                        _ => {
                            assert(!(model[i as int] is String));
                            return None;
                        },
                    }
                    i += 1;
                }
                assert(texts_of(out) =~= Seq::new(model.len(), |i: int| model[i]->String_0));
                Some(out)
            },
            _ => None,
        }
    }

    /// The object, where the value is one.
    pub fn as_object(&self) -> (r: Option<&JsonObject>)
        ensures
            match r {
                Some(o) => self@.as_object() == Some(o@),
                None => self@.as_object() is None,
            },
    {
        match self {
            JsonValue::Object(o) => Some(o),
            _ => None,
        }
    }

    /// The array of the given strings.
    pub fn from_strings(texts: &Vec<String>) -> (r: JsonValue)
        ensures
            r@ == texts_json(texts_of(*texts)),
    {
        let n: usize = texts.len();
        let mut items: Vec<JsonValue> = Vec::new();
        let mut i: usize = 0;
        while i < n
            invariant
                i <= n,
                n == texts.len(),
                items.len() == i,
                forall|j: int| 0 <= j < i ==> (#[trigger] items[j])@ == Json::String(texts[j]@),
            decreases n - i,
        {
            items.push(JsonValue::String(texts[i].clone()));
            i += 1;
        }
        proof {
            lemma_array_model(
                items,
                Seq::new(texts_of(*texts).len(), |i: int| Json::String(texts_of(*texts)[i])),
            );
        }
        JsonValue::Array(items)
    }
}

impl JsonObject {
    /// The object without members.
    pub fn new() -> (r: JsonObject)
        ensures
            r@ == Map::<Seq<char>, Json>::empty(),
            r.members@ == Seq::<JsonMember>::empty(),
            r.names_distinct(),
    {
        JsonObject { members: Vec::new() }
    }

    /// Where the member that binds `key` stands, if any does.
    pub fn position(&self, key: &str) -> (r: Option<usize>)
        ensures
            match r {
                Some(i) => i < self.members.len() && i == last_position(
                    self.members,
                    key@,
                    self.members.len() as nat,
                ),
                None => last_position(self.members, key@, self.members.len() as nat) == -1,
            },
    {
        let wanted = key.to_owned();
        let n: usize = self.members.len();
        let mut i: usize = n;
        while i > 0
            invariant
                i <= n,
                n == self.members.len(),
                wanted@ == key@,
                last_position(self.members, key@, n as nat) == last_position(
                    self.members,
                    key@,
                    i as nat,
                ),
            decreases i,
        {
            if self.members[i - 1].key == wanted {
                return Some(i - 1);
            }
            i -= 1;
        }
        None
    }

    /// The value bound to `key`, if any.
    pub fn get(&self, key: &str) -> (r: Option<&JsonValue>)
        ensures
            match r {
                Some(v) => self@.contains_key(key@) && self@[key@] == v@,
                None => !self@.contains_key(key@),
            },
    {
        proof {
            lemma_members_model(self.members, key@, self.members.len() as nat);
        }
        match self.position(key) {
            Some(i) => Some(&self.members[i].value),
            None => None,
        }
    }

    /// Binds `key` to `value`, in place of what it was bound to before:
    /// the new member takes the place of the member that bound `key`, or
    /// stands behind all others where `key` was unbound.
    pub fn insert(&mut self, key: String, value: JsonValue)
        ensures
            final(self)@ == old(self)@.insert(key@, value@),
            final(self).members@ == inserted(old(self).members, JsonMember { key, value }),
            old(self).names_distinct() ==> final(self).names_distinct(),
    {
        let ghost before = self.members;
        let ghost n = self.members.len() as nat;
        match self.position(key.as_str()) {
            Some(i) => {
                proof {
                    lemma_last_position(before, key@, n);
                }
                self.members.set(i, JsonMember { key, value });
                proof {
                    let after = self.members;
                    assert forall|j: int| 0 <= j < n implies (#[trigger] after[j]).key@
                        == before[j].key@ by {
                        if j != i {
                            assert(after[j] == before[j]);
                        }
                    }
                    assert forall|q: Seq<char>|
                        members_model(after, n).contains_key(q) == #[trigger] members_model(
                            before,
                            n,
                        ).insert(key@, value@).contains_key(q) && (members_model(
                            after,
                            n,
                        ).contains_key(q) ==> members_model(after, n)[q] == members_model(
                            before,
                            n,
                        ).insert(key@, value@)[q]) by {
                        lemma_last_position_by_names(after, before, q, n);
                        lemma_last_position(before, q, n);
                        lemma_last_position(before, key@, n);
                        lemma_members_model(after, q, n);
                        lemma_members_model(before, q, n);
                        lemma_members_model(before, key@, n);
                    }
                    assert(members_model(after, n) =~= members_model(before, n).insert(
                        key@,
                        value@,
                    ));
                }
            },
            None => {
                proof {
                    lemma_last_position(before, key@, n);
                }
                self.members.push(JsonMember { key, value });
                proof {
                    lemma_members_model_prefix(self.members, before, n);
                }
            },
        }
    }

    /// The boolean bound to `key`; a value of another kind counts as
    /// absent.
    pub fn try_get_bool(&self, key: &str) -> (r: Option<bool>)
        ensures
            r == member_bool(self@, key@),
    {
        match self.get(key) {
            Some(v) => v.as_bool(),
            None => None,
        }
    }

    /// The number bound to `key`; a value of another kind counts as absent.
    pub fn try_get_number(&self, key: &str) -> (r: Option<JsonNumber>)
        ensures
            bits_of(r) == member_number(self@, key@),
    {
        match self.get(key) {
            Some(v) => v.as_number(),
            None => None,
        }
    }

    /// The string bound to `key`; a value of another kind counts as absent.
    pub fn try_get_string(&self, key: &str) -> (r: Option<String>)
        ensures
            chars_of(r) == member_text(self@, key@),
    {
        match self.get(key) {
            Some(v) => v.as_string(),
            None => None,
        }
    }

    /// The array of strings bound to `key`; a value of another kind, or an
    /// array that holds anything but strings, counts as absent.
    pub fn try_get_strings(&self, key: &str) -> (r: Option<Vec<String>>)
        ensures
            opt_texts_of(r) == member_texts(self@, key@),
    {
        match self.get(key) {
            Some(v) => v.as_strings(),
            None => None,
        }
    }

    /// Binds `key` to `value`.
    pub fn put(&mut self, key: &str, value: JsonValue)
        ensures
            final(self)@ == old(self)@.insert(key@, value@),
            old(self).names_distinct() ==> final(self).names_distinct(),
    {
        self.insert(key.to_owned(), value);
    }

    /// Binds `key` to `value` where there is a value, and leaves the object
    /// as it is where there is none.
    pub fn put_opt(&mut self, key: &str, value: Option<JsonValue>)
        ensures
            final(self)@ == with_member(old(self)@, key@, json_of(value)),
            value is None ==> *final(self) == *old(self),
            old(self).names_distinct() ==> final(self).names_distinct(),
    {
        match value {
            Some(v) => self.insert(key.to_owned(), v),
            None => {},
        }
    }

    /// Reads a number that may be left out.
    pub fn optional_number(&self, key: &str) -> (r: Option<Option<JsonNumber>>)
        ensures
            match r {
                Some(n) => member_optional_number(self@, key@) == Some(bits_of(n)),
                None => member_optional_number(self@, key@) is None,
            },
    {
        match self.get(key) {
            None => Some(None),
            Some(JsonValue::Null) => Some(None),
            Some(JsonValue::Number(n)) => Some(Some(*n)),
            Some(_) => None,
        }
    }

    /// Reads a boolean that may be left out.
    pub fn optional_bool(&self, key: &str) -> (r: Option<Option<bool>>)
        ensures
            r == member_optional_bool(self@, key@),
    {
        match self.get(key) {
            None => Some(None),
            Some(JsonValue::Null) => Some(None),
            Some(JsonValue::Bool(b)) => Some(Some(*b)),
            Some(_) => None,
        }
    }

    /// Reads a string that may be left out.
    pub fn optional_string(&self, key: &str) -> (r: Option<Option<String>>)
        ensures
            match r {
                Some(s) => member_optional_text(self@, key@) == Some(chars_of(s)),
                None => member_optional_text(self@, key@) is None,
            },
    {
        match self.get(key) {
            None => Some(None),
            Some(JsonValue::Null) => Some(None),
            Some(JsonValue::String(s)) => Some(Some(s.clone())),
            Some(_) => None,
        }
    }
}

/// The content of an optional JSON value.
pub open spec fn json_of(v: Option<JsonValue>) -> Option<Json> {
    match v {
        Some(v) => Some(v@),
        None => None,
    }
}

/// An optional number as an optional JSON value.
pub fn number_value(n: Option<JsonNumber>) -> (r: Option<JsonValue>)
    ensures
        json_of(r) == number_json(bits_of(n)),
{
    match n {
        Some(n) => Some(JsonValue::Number(n)),
        None => None,
    }
}

/// An optional boolean as an optional JSON value.
pub fn bool_value(b: Option<bool>) -> (r: Option<JsonValue>)
    ensures
        json_of(r) == bool_json(b),
{
    match b {
        Some(b) => Some(JsonValue::Bool(b)),
        None => None,
    }
}

/// An optional string as an optional JSON value.
pub fn string_value(s: Option<String>) -> (r: Option<JsonValue>)
    ensures
        json_of(r) == text_json(chars_of(s)),
{
    match s {
        Some(s) => Some(JsonValue::String(s)),
        None => None,
    }
}

/// An optional list of strings as an optional JSON value.
pub fn strings_value(v: &Option<Vec<String>>) -> (r: Option<JsonValue>)
    ensures
        json_of(r) == opt_texts_json(opt_texts_of(*v)),
{
    match v {
        Some(v) => Some(JsonValue::from_strings(v)),
        None => None,
    }
}

impl Clone for JsonValue {
    fn clone(&self) -> (r: JsonValue)
        ensures
            r@ == self@,
        decreases self,
    {
        match self {
            JsonValue::Null => JsonValue::Null,
            JsonValue::Bool(b) => JsonValue::Bool(*b),
            JsonValue::Number(n) => JsonValue::Number(*n),
            JsonValue::String(s) => JsonValue::String(s.clone()),
            JsonValue::Array(items) => {
                let n: usize = items.len();
                let mut copies: Vec<JsonValue> = Vec::new();
                let mut i: usize = 0;
                while i < n
                    invariant
                        i <= n,
                        n == items.len(),
                        *self == JsonValue::Array(*items),
                        copies.len() == i,
                        forall|j: int| 0 <= j < i ==> (#[trigger] copies[j])@ == items[j]@,
                    decreases n - i,
                {
                    assert(self->Array_0 == *items);
                    copies.push(items[i].clone());
                    i += 1;
                }
                proof {
                    lemma_items_model(*items, n as nat);
                    lemma_array_model(copies, items_model(*items, n as nat));
                }
                JsonValue::Array(copies)
            },
            JsonValue::Object(o) => JsonValue::Object(
                JsonObject { members: copy_members(&o.members) },
            ),
        }
    }
}

/// Copies of the given members, in their order.
fn copy_members(members: &Vec<JsonMember>) -> (r: Vec<JsonMember>)
    ensures
        r.len() == members.len(),
        members_model(r, r.len() as nat) == members_model(*members, members.len() as nat),
    decreases *members,
{
    let n: usize = members.len();
    let mut copies: Vec<JsonMember> = Vec::new();
    let mut i: usize = 0;
    while i < n
        invariant
            i <= n,
            n == members.len(),
            copies.len() == i,
            members_model(copies, i as nat) == members_model(*members, i as nat),
        decreases n - i,
    {
        let ghost before = copies;
        let member = &members[i];
        copies.push(JsonMember { key: member.key.clone(), value: member.value.clone() });
        proof {
            lemma_members_model_prefix(copies, before, i as nat);
        }
        i += 1;
    }
    copies
}

impl Clone for JsonMember {
    fn clone(&self) -> (r: JsonMember)
        ensures
            r.key@ == self.key@,
            r.value@ == self.value@,
    {
        JsonMember { key: self.key.clone(), value: self.value.clone() }
    }
}

impl Clone for JsonObject {
    fn clone(&self) -> (r: JsonObject)
        ensures
            r@ == self@,
    {
        JsonObject { members: copy_members(&self.members) }
    }
}

} // verus!
