//! Domain entities and their relational metadata: the table-name
//! derivation, the four metadata facets every persisted entity supplies
//! (table name, ordered column names, insertable values, row hydration),
//! and the three entities themselves.

use vstd::prelude::*;
use vstd::string::*;

use crate::engine::{row_view, DbError, SqlValue, SqlValueV};
use crate::text::{join_with, push_char};

verus! {

/// The sentinel identifier carried by an entity value that has no row in
/// storage yet.
pub const NON_EXISTENT_INDEX: u32 = 0;

// ---------------------------------------------------------------------
// Table-name derivation
// ---------------------------------------------------------------------
/// Whether `c` is a capital letter in the Latin alphabet.
pub open spec fn is_upper(c: char) -> bool {
    'A' <= c && c <= 'Z'
}

/// The lower-case form of a capital Latin letter; any other character is
/// returned unchanged.
pub open spec fn lower_char(c: char) -> char {
    if c == 'A' {
        'a'
    } else if c == 'B' {
        'b'
    } else if c == 'C' {
        'c'
    } else if c == 'D' {
        'd'
    } else if c == 'E' {
        'e'
    } else if c == 'F' {
        'f'
    } else if c == 'G' {
        'g'
    } else if c == 'H' {
        'h'
    } else if c == 'I' {
        'i'
    } else if c == 'J' {
        'j'
    } else if c == 'K' {
        'k'
    } else if c == 'L' {
        'l'
    } else if c == 'M' {
        'm'
    } else if c == 'N' {
        'n'
    } else if c == 'O' {
        'o'
    } else if c == 'P' {
        'p'
    } else if c == 'Q' {
        'q'
    } else if c == 'R' {
        'r'
    } else if c == 'S' {
        's'
    } else if c == 'T' {
        't'
    } else if c == 'U' {
        'u'
    } else if c == 'V' {
        'v'
    } else if c == 'W' {
        'w'
    } else if c == 'X' {
        'x'
    } else if c == 'Y' {
        'y'
    } else if c == 'Z' {
        'z'
    } else {
        c
    }
}

fn lower_char_exec(c: char) -> (r: char)
    ensures
        r == lower_char(c),
{
    if c == 'A' {
        'a'
    } else if c == 'B' {
        'b'
    } else if c == 'C' {
        'c'
    } else if c == 'D' {
        'd'
    } else if c == 'E' {
        'e'
    } else if c == 'F' {
        'f'
    } else if c == 'G' {
        'g'
    } else if c == 'H' {
        'h'
    } else if c == 'I' {
        'i'
    } else if c == 'J' {
        'j'
    } else if c == 'K' {
        'k'
    } else if c == 'L' {
        'l'
    } else if c == 'M' {
        'm'
    } else if c == 'N' {
        'n'
    } else if c == 'O' {
        'o'
    } else if c == 'P' {
        'p'
    } else if c == 'Q' {
        'q'
    } else if c == 'R' {
        'r'
    } else if c == 'S' {
        's'
    } else if c == 'T' {
        't'
    } else if c == 'U' {
        'u'
    } else if c == 'V' {
        'v'
    } else if c == 'W' {
        'w'
    } else if c == 'X' {
        'x'
    } else if c == 'Y' {
        'y'
    } else if c == 'Z' {
        'z'
    } else {
        c
    }
}

/// What one character of an entity identifier contributes to the derived
/// table name: a capital letter opens a new word (lower-cased, preceded
/// by `'_'` unless it is the very first character); any other character
/// is kept as it is.
pub open spec fn word_chars(c: char, lead: bool) -> Seq<char> {
    if is_upper(c) {
        if lead {
            seq![lower_char(c)]
        } else {
            seq!['_', lower_char(c)]
        }
    } else {
        seq![c]
    }
}

/// The table name derived from an entity identifier: the identifier's
/// capital-led words, lower-cased and joined with underscores. Total on
/// every text; on a capitalized multi-word identifier such as
/// `OneTwoThree` it yields `one_two_three`.
pub open spec fn spec_table_name_of(s: Seq<char>) -> Seq<char>
    decreases s.len(),
{
    if s.len() == 0 {
        Seq::empty()
    } else {
        spec_table_name_of(s.drop_last()) + word_chars(s.last(), s.len() == 1)
    }
}

/// Derives the table name of an entity identifier. Pure and total: the
/// result is exactly `spec_table_name_of` of the input, whatever the
/// input.
pub fn generate_table_name(name: &str) -> (t: String)
    ensures
        t@ == spec_table_name_of(name@),
{
    let n = name.unicode_len();
    let mut out = String::new();
    let mut i: usize = 0;
    while i < n
        invariant
            0 <= i <= n,
            n == name@.len(),
            out@ == spec_table_name_of(name@.subrange(0, i as int)),
        decreases n - i,
    {
        let c = name.get_char(i);
        if 'A' <= c && c <= 'Z' {
            if i > 0 {
                out.append("_");
            }
            push_char(&mut out, lower_char_exec(c));
        } else {
            push_char(&mut out, c);
        }
        proof {
            reveal_strlit("_");
            assert(name@.subrange(0, (i + 1) as int).drop_last() =~= name@.subrange(0, i as int));
            assert(name@.subrange(0, (i + 1) as int).last() == name@[i as int]);
            assert(out@ =~= spec_table_name_of(name@.subrange(0, (i + 1) as int)));
        }
        i = i + 1;
    }
    proof {
        assert(name@.subrange(0, n as int) =~= name@);
    }
    out
}

// ---------------------------------------------------------------------
// The word-decomposition law of the derivation
// ---------------------------------------------------------------------
/// Whether `c` is a lower-case letter in the Latin alphabet.
pub open spec fn is_lower(c: char) -> bool {
    'a' <= c && c <= 'z'
}

/// One word of a capitalized multi-word identifier: a capital letter
/// followed by one or more lower-case letters.
pub open spec fn is_camel_word(w: Seq<char>) -> bool {
    w.len() >= 2 && is_upper(w[0]) && (forall|i: int|
        1 <= i < w.len() ==> is_lower(#[trigger] w[i]))
}

/// The lower-cased text of one word: its leading capital lowered, the
/// rest unchanged.
pub open spec fn lower_word(w: Seq<char>) -> Seq<char>
    recommends
        w.len() >= 1,
{
    seq![lower_char(w[0])] + w.skip(1)
}

/// The words of an identifier, concatenated back into it.
pub open spec fn concat_words(ws: Seq<Seq<char>>) -> Seq<char>
    decreases ws.len(),
{
    if ws.len() == 0 {
        Seq::empty()
    } else {
        concat_words(ws.drop_last()) + ws.last()
    }
}

/// Characters that open no new word pass through the derivation
/// unchanged, wherever they stand.
proof fn lemma_table_name_lower_run(s: Seq<char>, w: Seq<char>)
    requires
        forall|i: int| 0 <= i < w.len() ==> !is_upper(#[trigger] w[i]),
    ensures
        spec_table_name_of(s + w) == spec_table_name_of(s) + w,
    decreases w.len(),
{
    if w.len() == 0 {
        assert(s + w =~= s);
        assert(spec_table_name_of(s) + w =~= spec_table_name_of(s));
    } else {
        let w0 = w.drop_last();
        assert forall|i: int| 0 <= i < w0.len() implies !is_upper(w0[i]) by {
            assert(w0[i] == w[i]);
        }
        lemma_table_name_lower_run(s, w0);
        assert(s + w =~= (s + w0).push(w.last()));
        lemma_table_name_extend(s + w0, w.last());
        assert(spec_table_name_of(s + w) =~= spec_table_name_of(s) + w);
    }
}

/// Appending one whole word appends exactly its lower-cased text, led
/// by an underscore unless it opens the name.
proof fn lemma_table_name_word(s: Seq<char>, w: Seq<char>)
    requires
        w.len() >= 1,
        is_upper(w[0]),
        forall|i: int| 1 <= i < w.len() ==> !is_upper(#[trigger] w[i]),
    ensures
        s.len() == 0 ==> spec_table_name_of(s + w) == lower_word(w),
        s.len() > 0 ==> spec_table_name_of(s + w) == spec_table_name_of(s) + seq!['_']
            + lower_word(w),
{
    let rest = w.skip(1);
    assert(s + w =~= s.push(w[0]) + rest);
    lemma_table_name_extend(s, w[0]);
    assert forall|i: int| 0 <= i < rest.len() implies !is_upper(rest[i]) by {
        assert(rest[i] == w[i + 1]);
    }
    lemma_table_name_lower_run(s.push(w[0]), rest);
    if s.len() == 0 {
        assert(s =~= Seq::<char>::empty());
        assert(spec_table_name_of(s) =~= Seq::<char>::empty());
        assert(spec_table_name_of(s + w) =~= lower_word(w));
    } else {
        assert(spec_table_name_of(s + w) =~= spec_table_name_of(s) + seq!['_'] + lower_word(w));
    }
}

/// A run of nonempty words concatenates to nonempty text.
proof fn lemma_concat_words_nonempty(ws: Seq<Seq<char>>)
    requires
        ws.len() >= 1,
        ws[ws.len() - 1].len() >= 1,
    ensures
        concat_words(ws).len() >= 1,
{
    assert(concat_words(ws) == concat_words(ws.drop_last()) + ws.last());
}

/// The word-decomposition law of the derivation: on every capitalized
/// multi-word identifier — a run of words, each one a capital letter
/// followed by lower-case letters — the derived table name is exactly
/// the words, lower-cased, joined with underscores.
pub proof fn lemma_table_name_words(ws: Seq<Seq<char>>)
    requires
        ws.len() >= 1,
        forall|i: int| 0 <= i < ws.len() ==> is_camel_word(#[trigger] ws[i]),
    ensures
        spec_table_name_of(concat_words(ws)) == join_with(
            ws.map_values(|w: Seq<char>| lower_word(w)),
            seq!['_'],
        ),
    decreases ws.len(),
{
    let mapped = ws.map_values(|w: Seq<char>| lower_word(w));
    let w = ws.last();
    assert(is_camel_word(w));
    assert forall|i: int| 1 <= i < w.len() implies !is_upper(w[i]) by {
        assert(is_lower(w[i]));
    }
    if ws.len() == 1 {
        assert(concat_words(ws) == concat_words(ws.drop_last()) + w);
        assert(ws.drop_last().len() == 0);
        assert(concat_words(ws.drop_last()) =~= Seq::<char>::empty());
        assert(concat_words(ws) =~= w);
        lemma_table_name_word(Seq::<char>::empty(), w);
        assert(Seq::<char>::empty() + w =~= w);
        assert(mapped.len() == 1);
        assert(mapped[0] == lower_word(ws[0]));
        assert(spec_table_name_of(concat_words(ws)) == join_with(mapped, seq!['_']));
    } else {
        let prefix = ws.drop_last();
        assert forall|i: int| 0 <= i < prefix.len() implies is_camel_word(prefix[i]) by {
            assert(prefix[i] == ws[i]);
        }
        lemma_table_name_words(prefix);
        assert(prefix[prefix.len() - 1].len() >= 1);
        lemma_concat_words_nonempty(prefix);
        assert(concat_words(ws) == concat_words(prefix) + w);
        lemma_table_name_word(concat_words(prefix), w);
        let mp = prefix.map_values(|x: Seq<char>| lower_word(x));
        assert(mapped.drop_last() =~= mp);
        assert(mapped.last() == lower_word(w));
        assert(join_with(mapped, seq!['_']) == join_with(mp, seq!['_']) + seq!['_']
            + mapped.last());
        assert(spec_table_name_of(concat_words(ws)) == join_with(mapped, seq!['_']));
    }
}

// ---------------------------------------------------------------------
// Metadata facets
// ---------------------------------------------------------------------
/// Marker for entity types whose rows carry a logically unique `name`
/// column.
pub trait Named {

}

/// The name of the relation an entity type is stored in.
pub trait TableName {
    /// The table name, as a mathematical value.
    spec fn spec_table_name() -> Seq<char>;

    /// The table name, as text.
    fn table_name() -> (t: &'static str)
        ensures
            t@ == Self::spec_table_name(),
    ;
}

/// The ordered column names of an entity type, identifier first, in
/// declaration order.
pub trait FieldNames {
    /// The column names, as mathematical values.
    spec fn spec_field_names() -> Seq<Seq<char>>;

    /// Every entity has the identifier column and at least one more; a
    /// type that cannot show this is rejected when it is declared, not
    /// at run time.
    proof fn field_names_at_least_id()
        ensures
            Self::spec_field_names().len() >= 2,
    ;

    /// The column names, as text.
    fn get_field_names() -> (names: Vec<&'static str>)
        ensures
            names@.len() == Self::spec_field_names().len(),
            forall|i: int|
                0 <= i < names@.len() ==> (#[trigger] names@[i])@ == Self::spec_field_names()[i],
    ;
}

/// The ordered cells an entity contributes to an INSERT: its field
/// values in declaration order, identifier excluded, each one an
/// independent copy of the entity's field.
pub trait InsertValues: FieldNames {
    /// The insertable cells, as mathematical values.
    spec fn spec_insert_values(&self) -> Seq<SqlValueV>;

    /// One cell per column after the identifier; a mismatch is rejected
    /// when the type is declared, not at run time.
    proof fn insert_values_match_columns(&self)
        ensures
            self.spec_insert_values().len() == Self::spec_field_names().len() - 1,
    ;

    /// The insertable cells. The entity itself is only read.
    fn get_insert_values(&self) -> (vals: Vec<SqlValue>)
        ensures
            row_view(vals@) == self.spec_insert_values(),
    ;
}

/// Row hydration: building an entity back from one fetched row, reading
/// cells at positions `0..n` in declaration order.
pub trait FromRow: View + Sized {
    /// Which rows hydrate, and to what. `None` means the row's shape
    /// does not fit this entity type.
    spec fn spec_from_row(row: Seq<SqlValueV>) -> Option<Self::V>;

    /// Hydrates one row; a row whose shape does not fit yields
    /// `HydrationError` rather than aborting.
    fn from_row(row: &Vec<SqlValue>) -> (r: Result<Self, DbError>)
        ensures
            match Self::spec_from_row(row_view(row@)) {
                Some(v) => r matches Ok(e) && e@ == v,
                None => r matches Err(e) && e == DbError::HydrationError,
            },
    ;
}

// ---------------------------------------------------------------------
// Cell readers shared by the hydration impls
// ---------------------------------------------------------------------
/// Which cells hold an identifier-sized integer.
pub open spec fn spec_cell_u32(v: SqlValueV) -> Option<u32> {
    match v {
        SqlValueV::Integer(n) => if 0 <= n <= u32::MAX as i64 {
            Some(n as u32)
        } else {
            None
        },
        _ => None,
    }
}

/// Which cells hold a machine integer.
pub open spec fn spec_cell_i64(v: SqlValueV) -> Option<i64> {
    match v {
        SqlValueV::Integer(n) => Some(n),
        _ => None,
    }
}

/// Which cells hold text.
pub open spec fn spec_cell_text(v: SqlValueV) -> Option<Seq<char>> {
    match v {
        SqlValueV::Text(s) => Some(s),
        _ => None,
    }
}

fn cell_as_u32(v: &SqlValue) -> (r: Result<u32, DbError>)
    ensures
        match spec_cell_u32(v@) {
            Some(u) => r == Ok::<u32, DbError>(u),
            None => r == Err::<u32, DbError>(DbError::HydrationError),
        },
{
    match v {
        SqlValue::Integer(n) => {
            if 0 <= *n && *n <= u32::MAX as i64 {
                Ok(*n as u32)
            } else {
                Err(DbError::HydrationError)
            }
        },
        _ => Err(DbError::HydrationError),
    }
}

fn cell_as_i64(v: &SqlValue) -> (r: Result<i64, DbError>)
    ensures
        match spec_cell_i64(v@) {
            Some(n) => r == Ok::<i64, DbError>(n),
            None => r == Err::<i64, DbError>(DbError::HydrationError),
        },
{
    match v {
        SqlValue::Integer(n) => Ok(*n),
        _ => Err(DbError::HydrationError),
    }
}

fn cell_as_text(v: &SqlValue) -> (r: Result<String, DbError>)
    ensures
        match spec_cell_text(v@) {
            Some(s) => r matches Ok(t) && t@ == s,
            None => r == Err::<String, DbError>(DbError::HydrationError),
        },
{
    match v {
        SqlValue::Text(s) => Ok(s.clone()),
        _ => Err(DbError::HydrationError),
    }
}

// ---------------------------------------------------------------------
// The entities
// ---------------------------------------------------------------------
/// A utility meter, known by a logically unique name.
#[derive(Debug)]
pub struct Meter {
    pub id: u32,
    pub name: String,
}

/// Mathematical image of a `Meter`.
pub ghost struct MeterV {
    pub id: u32,
    pub name: Seq<char>,
}

impl View for Meter {
    type V = MeterV;

    open spec fn view(&self) -> MeterV {
        MeterV { id: self.id, name: self.name@ }
    }
}

/// A reading series of a meter, billed at an integer rate.
#[derive(Debug)]
pub struct Metric {
    pub id: u32,
    pub name: String,
    pub meter_id: u32,
    pub rate: u32,
}

/// Mathematical image of a `Metric`.
pub ghost struct MetricV {
    pub id: u32,
    pub name: Seq<char>,
    pub meter_id: u32,
    pub rate: u32,
}

impl View for Metric {
    type V = MetricV;

    open spec fn view(&self) -> MetricV {
        MetricV { id: self.id, name: self.name@, meter_id: self.meter_id, rate: self.rate }
    }
}

/// One recorded reading of a metric, stamped with the moment it was
/// added, as a plain timestamp count.
#[derive(Debug)]
pub struct MetricValue {
    pub id: u32,
    pub metric_id: u32,
    pub value: u32,
    pub added: i64,
}

/// Mathematical image of a `MetricValue`.
pub ghost struct MetricValueV {
    pub id: u32,
    pub metric_id: u32,
    pub value: u32,
    pub added: i64,
}

impl View for MetricValue {
    type V = MetricValueV;

    open spec fn view(&self) -> MetricValueV {
        MetricValueV {
            id: self.id,
            metric_id: self.metric_id,
            value: self.value,
            added: self.added,
        }
    }
}

impl Named for Meter {

}

impl Named for Metric {

}

impl Meter {
    /// A fresh, not-yet-persisted meter: sentinel identifier, the given
    /// name copied in.
    pub fn new(name: &str) -> (m: Meter)
        ensures
            m@ == (MeterV { id: NON_EXISTENT_INDEX, name: name@ }),
    {
        Meter { id: NON_EXISTENT_INDEX, name: name.to_owned() }
    }
}

impl Metric {
    /// A fresh, not-yet-persisted metric.
    pub fn new(name: &str, meter_id: u32, rate: u32) -> (m: Metric)
        ensures
            m@ == (MetricV { id: NON_EXISTENT_INDEX, name: name@, meter_id, rate }),
    {
        Metric { id: NON_EXISTENT_INDEX, name: name.to_owned(), meter_id, rate }
    }
}

impl MetricValue {
    /// A fresh, not-yet-persisted reading.
    pub fn new(metric_id: u32, value: u32, added: i64) -> (m: MetricValue)
        ensures
            m@ == (MetricValueV { id: NON_EXISTENT_INDEX, metric_id, value, added }),
    {
        MetricValue { id: NON_EXISTENT_INDEX, metric_id, value, added }
    }
}

// ---------------------------------------------------------------------
// Metadata impls: Meter
// ---------------------------------------------------------------------
impl TableName for Meter {
    open spec fn spec_table_name() -> Seq<char> {
        "meter"@
    }

    fn table_name() -> (t: &'static str) {
        "meter"
    }
}

impl FieldNames for Meter {
    open spec fn spec_field_names() -> Seq<Seq<char>> {
        seq!["id"@, "name"@]
    }

    proof fn field_names_at_least_id() {
    }

    fn get_field_names() -> (names: Vec<&'static str>) {
        let mut names: Vec<&'static str> = Vec::new();
        names.push("id");
        names.push("name");
        names
    }
}

impl InsertValues for Meter {
    open spec fn spec_insert_values(&self) -> Seq<SqlValueV> {
        seq![SqlValueV::Text(self.name@)]
    }

    proof fn insert_values_match_columns(&self) {
    }

    fn get_insert_values(&self) -> (vals: Vec<SqlValue>) {
        let mut vals: Vec<SqlValue> = Vec::new();
        vals.push(SqlValue::Text(self.name.clone()));
        proof {
            assert(row_view(vals@) =~= self.spec_insert_values());
        }
        vals
    }
}

impl FromRow for Meter {
    open spec fn spec_from_row(row: Seq<SqlValueV>) -> Option<MeterV> {
        if row.len() >= 2 {
            match (spec_cell_u32(row[0]), spec_cell_text(row[1])) {
                (Some(id), Some(name)) => Some(MeterV { id, name }),
                _ => None,
            }
        } else {
            None
        }
    }

    fn from_row(row: &Vec<SqlValue>) -> (r: Result<Meter, DbError>) {
        if row.len() < 2 {
            return Err(DbError::HydrationError);
        }
        let id = match cell_as_u32(&row[0]) {
            Ok(id) => id,
            Err(e) => return Err(e),
        };
        let name = match cell_as_text(&row[1]) {
            Ok(name) => name,
            Err(e) => return Err(e),
        };
        Ok(Meter { id, name })
    }
}

// ---------------------------------------------------------------------
// Metadata impls: Metric
// ---------------------------------------------------------------------
impl TableName for Metric {
    open spec fn spec_table_name() -> Seq<char> {
        "metric"@
    }

    fn table_name() -> (t: &'static str) {
        "metric"
    }
}

impl FieldNames for Metric {
    open spec fn spec_field_names() -> Seq<Seq<char>> {
        seq!["id"@, "name"@, "meter_id"@, "rate"@]
    }

    proof fn field_names_at_least_id() {
    }

    fn get_field_names() -> (names: Vec<&'static str>) {
        let mut names: Vec<&'static str> = Vec::new();
        names.push("id");
        names.push("name");
        names.push("meter_id");
        names.push("rate");
        names
    }
}

impl InsertValues for Metric {
    open spec fn spec_insert_values(&self) -> Seq<SqlValueV> {
        seq![
            SqlValueV::Text(self.name@),
            SqlValueV::Integer(self.meter_id as i64),
            SqlValueV::Integer(self.rate as i64),
        ]
    }

    proof fn insert_values_match_columns(&self) {
    }

    fn get_insert_values(&self) -> (vals: Vec<SqlValue>) {
        let mut vals: Vec<SqlValue> = Vec::new();
        vals.push(SqlValue::Text(self.name.clone()));
        vals.push(SqlValue::Integer(self.meter_id as i64));
        vals.push(SqlValue::Integer(self.rate as i64));
        proof {
            assert(row_view(vals@) =~= self.spec_insert_values());
        }
        vals
    }
}

impl FromRow for Metric {
    open spec fn spec_from_row(row: Seq<SqlValueV>) -> Option<MetricV> {
        if row.len() >= 4 {
            match (
                spec_cell_u32(row[0]),
                spec_cell_text(row[1]),
                spec_cell_u32(row[2]),
                spec_cell_u32(row[3]),
            ) {
                (Some(id), Some(name), Some(meter_id), Some(rate)) => Some(
                    MetricV { id, name, meter_id, rate },
                ),
                _ => None,
            }
        } else {
            None
        }
    }

    fn from_row(row: &Vec<SqlValue>) -> (r: Result<Metric, DbError>) {
        if row.len() < 4 {
            return Err(DbError::HydrationError);
        }
        let id = match cell_as_u32(&row[0]) {
            Ok(id) => id,
            Err(e) => return Err(e),
        };
        let name = match cell_as_text(&row[1]) {
            Ok(name) => name,
            Err(e) => return Err(e),
        };
        let meter_id = match cell_as_u32(&row[2]) {
            Ok(meter_id) => meter_id,
            Err(e) => return Err(e),
        };
        let rate = match cell_as_u32(&row[3]) {
            Ok(rate) => rate,
            Err(e) => return Err(e),
        };
        Ok(Metric { id, name, meter_id, rate })
    }
}

// ---------------------------------------------------------------------
// Metadata impls: MetricValue
// ---------------------------------------------------------------------
impl TableName for MetricValue {
    open spec fn spec_table_name() -> Seq<char> {
        "metric_value"@
    }

    fn table_name() -> (t: &'static str) {
        "metric_value"
    }
}

impl FieldNames for MetricValue {
    open spec fn spec_field_names() -> Seq<Seq<char>> {
        seq!["id"@, "metric_id"@, "value"@, "added"@]
    }

    proof fn field_names_at_least_id() {
    }

    fn get_field_names() -> (names: Vec<&'static str>) {
        let mut names: Vec<&'static str> = Vec::new();
        names.push("id");
        names.push("metric_id");
        names.push("value");
        names.push("added");
        names
    }
}

impl InsertValues for MetricValue {
    open spec fn spec_insert_values(&self) -> Seq<SqlValueV> {
        seq![
            SqlValueV::Integer(self.metric_id as i64),
            SqlValueV::Integer(self.value as i64),
            SqlValueV::Integer(self.added),
        ]
    }

    proof fn insert_values_match_columns(&self) {
    }

    fn get_insert_values(&self) -> (vals: Vec<SqlValue>) {
        let mut vals: Vec<SqlValue> = Vec::new();
        vals.push(SqlValue::Integer(self.metric_id as i64));
        vals.push(SqlValue::Integer(self.value as i64));
        vals.push(SqlValue::Integer(self.added));
        proof {
            assert(row_view(vals@) =~= self.spec_insert_values());
        }
        vals
    }
}

impl FromRow for MetricValue {
    open spec fn spec_from_row(row: Seq<SqlValueV>) -> Option<MetricValueV> {
        if row.len() >= 4 {
            match (
                spec_cell_u32(row[0]),
                spec_cell_u32(row[1]),
                spec_cell_u32(row[2]),
                spec_cell_i64(row[3]),
            ) {
                (Some(id), Some(metric_id), Some(value), Some(added)) => Some(
                    MetricValueV { id, metric_id, value, added },
                ),
                _ => None,
            }
        } else {
            None
        }
    }

    fn from_row(row: &Vec<SqlValue>) -> (r: Result<MetricValue, DbError>) {
        if row.len() < 4 {
            return Err(DbError::HydrationError);
        }
        let id = match cell_as_u32(&row[0]) {
            Ok(id) => id,
            Err(e) => return Err(e),
        };
        let metric_id = match cell_as_u32(&row[1]) {
            Ok(metric_id) => metric_id,
            Err(e) => return Err(e),
        };
        let value = match cell_as_u32(&row[2]) {
            Ok(value) => value,
            Err(e) => return Err(e),
        };
        let added = match cell_as_i64(&row[3]) {
            Ok(added) => added,
            Err(e) => return Err(e),
        };
        Ok(MetricValue { id, metric_id, value, added })
    }
}

// ---------------------------------------------------------------------
// The descriptors agree with the derivation
// ---------------------------------------------------------------------
/// Extending the identifier by one character extends the derived name
/// by that character's contribution.
pub proof fn lemma_table_name_extend(s: Seq<char>, c: char)
    ensures
        spec_table_name_of(s.push(c)) == spec_table_name_of(s) + word_chars(c, s.len() == 0),
{
    assert(s.push(c).drop_last() =~= s);
    assert(s.push(c).last() == c);
}

/// The declared table name of `Meter` is exactly what the derivation
/// yields on its identifier.
pub proof fn lemma_meter_table_name_derived()
    ensures
        spec_table_name_of("Meter"@) == Meter::spec_table_name(),
{
    reveal_strlit("Meter");
    reveal_strlit("meter");
    let s = "Meter"@;
    assert(spec_table_name_of(s.subrange(0, 0)) == Seq::<char>::empty());
    assert(s.subrange(0, 1) =~= s.subrange(0, 0).push('M'));
    lemma_table_name_extend(s.subrange(0, 0), 'M');
    assert(spec_table_name_of(s.subrange(0, 1)) =~= seq!['m']);
    assert(s.subrange(0, 2) =~= s.subrange(0, 1).push('e'));
    lemma_table_name_extend(s.subrange(0, 1), 'e');
    assert(spec_table_name_of(s.subrange(0, 2)) =~= seq!['m', 'e']);
    assert(s.subrange(0, 3) =~= s.subrange(0, 2).push('t'));
    lemma_table_name_extend(s.subrange(0, 2), 't');
    assert(spec_table_name_of(s.subrange(0, 3)) =~= seq!['m', 'e', 't']);
    assert(s.subrange(0, 4) =~= s.subrange(0, 3).push('e'));
    lemma_table_name_extend(s.subrange(0, 3), 'e');
    assert(spec_table_name_of(s.subrange(0, 4)) =~= seq!['m', 'e', 't', 'e']);
    assert(s.subrange(0, 5) =~= s.subrange(0, 4).push('r'));
    lemma_table_name_extend(s.subrange(0, 4), 'r');
    assert(spec_table_name_of(s.subrange(0, 5)) =~= seq!['m', 'e', 't', 'e', 'r']);
    assert(s.subrange(0, 5) =~= s);
    assert("meter"@ =~= seq!['m', 'e', 't', 'e', 'r']);
}

/// The declared table name of `Metric` is exactly what the derivation
/// yields on its identifier.
pub proof fn lemma_metric_table_name_derived()
    ensures
        spec_table_name_of("Metric"@) == Metric::spec_table_name(),
{
    reveal_strlit("Metric");
    reveal_strlit("metric");
    let s = "Metric"@;
    assert(spec_table_name_of(s.subrange(0, 0)) == Seq::<char>::empty());
    assert(s.subrange(0, 1) =~= s.subrange(0, 0).push('M'));
    lemma_table_name_extend(s.subrange(0, 0), 'M');
    assert(spec_table_name_of(s.subrange(0, 1)) =~= seq!['m']);
    assert(s.subrange(0, 2) =~= s.subrange(0, 1).push('e'));
    lemma_table_name_extend(s.subrange(0, 1), 'e');
    assert(spec_table_name_of(s.subrange(0, 2)) =~= seq!['m', 'e']);
    assert(s.subrange(0, 3) =~= s.subrange(0, 2).push('t'));
    lemma_table_name_extend(s.subrange(0, 2), 't');
    assert(spec_table_name_of(s.subrange(0, 3)) =~= seq!['m', 'e', 't']);
    assert(s.subrange(0, 4) =~= s.subrange(0, 3).push('r'));
    lemma_table_name_extend(s.subrange(0, 3), 'r');
    assert(spec_table_name_of(s.subrange(0, 4)) =~= seq!['m', 'e', 't', 'r']);
    assert(s.subrange(0, 5) =~= s.subrange(0, 4).push('i'));
    lemma_table_name_extend(s.subrange(0, 4), 'i');
    assert(spec_table_name_of(s.subrange(0, 5)) =~= seq!['m', 'e', 't', 'r', 'i']);
    assert(s.subrange(0, 6) =~= s.subrange(0, 5).push('c'));
    lemma_table_name_extend(s.subrange(0, 5), 'c');
    assert(spec_table_name_of(s.subrange(0, 6)) =~= seq!['m', 'e', 't', 'r', 'i', 'c']);
    assert(s.subrange(0, 6) =~= s);
    assert("metric"@ =~= seq!['m', 'e', 't', 'r', 'i', 'c']);
}

/// The declared table name of `MetricValue` is exactly what the
/// derivation yields on its identifier: two words, joined with an
/// underscore.
pub proof fn lemma_metric_value_table_name_derived()
    ensures
        spec_table_name_of("MetricValue"@) == MetricValue::spec_table_name(),
{
    reveal_strlit("MetricValue");
    reveal_strlit("metric_value");
    let s = "MetricValue"@;
    assert(spec_table_name_of(s.subrange(0, 0)) == Seq::<char>::empty());
    assert(s.subrange(0, 1) =~= s.subrange(0, 0).push('M'));
    lemma_table_name_extend(s.subrange(0, 0), 'M');
    assert(spec_table_name_of(s.subrange(0, 1)) =~= seq!['m']);
    assert(s.subrange(0, 2) =~= s.subrange(0, 1).push('e'));
    lemma_table_name_extend(s.subrange(0, 1), 'e');
    assert(spec_table_name_of(s.subrange(0, 2)) =~= seq!['m', 'e']);
    assert(s.subrange(0, 3) =~= s.subrange(0, 2).push('t'));
    lemma_table_name_extend(s.subrange(0, 2), 't');
    assert(spec_table_name_of(s.subrange(0, 3)) =~= seq!['m', 'e', 't']);
    assert(s.subrange(0, 4) =~= s.subrange(0, 3).push('r'));
    lemma_table_name_extend(s.subrange(0, 3), 'r');
    assert(spec_table_name_of(s.subrange(0, 4)) =~= seq!['m', 'e', 't', 'r']);
    assert(s.subrange(0, 5) =~= s.subrange(0, 4).push('i'));
    lemma_table_name_extend(s.subrange(0, 4), 'i');
    assert(spec_table_name_of(s.subrange(0, 5)) =~= seq!['m', 'e', 't', 'r', 'i']);
    assert(s.subrange(0, 6) =~= s.subrange(0, 5).push('c'));
    lemma_table_name_extend(s.subrange(0, 5), 'c');
    assert(spec_table_name_of(s.subrange(0, 6)) =~= seq!['m', 'e', 't', 'r', 'i', 'c']);
    assert(s.subrange(0, 7) =~= s.subrange(0, 6).push('V'));
    lemma_table_name_extend(s.subrange(0, 6), 'V');
    assert(spec_table_name_of(s.subrange(0, 7)) =~= seq!['m', 'e', 't', 'r', 'i', 'c', '_', 'v']);
    assert(s.subrange(0, 8) =~= s.subrange(0, 7).push('a'));
    lemma_table_name_extend(s.subrange(0, 7), 'a');
    assert(spec_table_name_of(s.subrange(0, 8)) =~= seq![
        'm', 'e', 't', 'r', 'i', 'c', '_', 'v', 'a',
    ]);
    assert(s.subrange(0, 9) =~= s.subrange(0, 8).push('l'));
    lemma_table_name_extend(s.subrange(0, 8), 'l');
    assert(spec_table_name_of(s.subrange(0, 9)) =~= seq![
        'm', 'e', 't', 'r', 'i', 'c', '_', 'v', 'a', 'l',
    ]);
    assert(s.subrange(0, 10) =~= s.subrange(0, 9).push('u'));
    lemma_table_name_extend(s.subrange(0, 9), 'u');
    assert(spec_table_name_of(s.subrange(0, 10)) =~= seq![
        'm', 'e', 't', 'r', 'i', 'c', '_', 'v', 'a', 'l', 'u',
    ]);
    assert(s.subrange(0, 11) =~= s.subrange(0, 10).push('e'));
    lemma_table_name_extend(s.subrange(0, 10), 'e');
    assert(spec_table_name_of(s.subrange(0, 11)) =~= seq![
        'm', 'e', 't', 'r', 'i', 'c', '_', 'v', 'a', 'l', 'u', 'e',
    ]);
    assert(s.subrange(0, 11) =~= s);
    assert("metric_value"@ =~= seq!['m', 'e', 't', 'r', 'i', 'c', '_', 'v', 'a', 'l', 'u', 'e']);
}

} // verus!
