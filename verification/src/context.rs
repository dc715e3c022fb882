use vstd::prelude::*;

use std::path::PathBuf;

use crate::app::Filter;
use crate::cli::{ArgAuthType, CliArgs};

verus! {

// ------------------------------------------------------------------------
// Filters
// ------------------------------------------------------------------------

/// A filter value as read from the filters file: a value of a known kind,
/// or the raw entry where its kind could not be recognised.
#[derive(Debug)]
pub enum FilterValue<T, U> {
    Known(T),
    Unknown(U),
}

/// One entry of the filters file, in file order.
#[derive(Debug)]
pub enum FilterInput<S, D, U> {
    Discrete { name: String, values: FilterValue<D, U> },
    Static { name: String, value: FilterValue<S, U> },
}

/// Why a list of filters was refused. Positions count entries from 1.
#[derive(Debug, PartialEq)]
pub enum FilterError<U> {
    /// A second discrete filter was found.
    MultipleDiscrete,
    /// The values of the discrete filter at `position` have no known kind.
    UnknownDiscreteValue { position: u32, raw: U },
    /// The value of the static filter at `position` has no known kind.
    UnknownStaticValue { position: u32, raw: U },
}

/// The decimal digit `d` (below ten).
pub open spec fn digit_char(d: nat) -> char {
    if d == 0 {
        '0'
    } else if d == 1 {
        '1'
    } else if d == 2 {
        '2'
    } else if d == 3 {
        '3'
    } else if d == 4 {
        '4'
    } else if d == 5 {
        '5'
    } else if d == 6 {
        '6'
    } else if d == 7 {
        '7'
    } else if d == 8 {
        '8'
    } else {
        '9'
    }
}

/// `n` written in decimal, without leading zeros.
pub open spec fn decimal(n: nat) -> Seq<char>
    decreases n,
{
    if n < 10 {
        seq![digit_char(n)]
    } else {
        decimal(n / 10).push(digit_char(n % 10))
    }
}

fn digit_str(d: u32) -> (r: &'static str)
    requires
        d < 10,
    ensures
        r@ == seq![digit_char(d as nat)],
{
    proof {
        reveal_strlit("0");
        reveal_strlit("1");
        reveal_strlit("2");
        reveal_strlit("3");
        reveal_strlit("4");
        reveal_strlit("5");
        reveal_strlit("6");
        reveal_strlit("7");
        reveal_strlit("8");
        reveal_strlit("9");
    }
    if d == 0 {
        "0"
    } else if d == 1 {
        "1"
    } else if d == 2 {
        "2"
    } else if d == 3 {
        "3"
    } else if d == 4 {
        "4"
    } else if d == 5 {
        "5"
    } else if d == 6 {
        "6"
    } else if d == 7 {
        "7"
    } else if d == 8 {
        "8"
    } else {
        "9"
    }
}

fn push_decimal(s: &mut String, n: u32)
    ensures
        final(s)@ == old(s)@ + decimal(n as nat),
    decreases n,
{
    if n >= 10 {
        push_decimal(s, n / 10);
    }
    s.append(digit_str(n % 10));
    proof {
        if n >= 10 {
            assert(old(s)@ + decimal(n as nat) =~= old(s)@ + decimal((n / 10) as nat) + seq![
                digit_char((n % 10) as nat),
            ]);
        }
    }
}

pub open spec fn msg_multiple_discrete() -> Seq<char> {
    "Multiple discrete filters are not allowed"@
}

/// The text that describes a filter error, where `raw_text` stands for the
/// rejected entry (the caller's rendering of `raw`).
pub open spec fn filter_error_message<U>(e: FilterError<U>, raw_text: Seq<char>) -> Seq<char> {
    match e {
        FilterError::MultipleDiscrete => msg_multiple_discrete(),
        FilterError::UnknownDiscreteValue { position, .. } => "Could not parse discrete filter value at position "@
            + decimal(position as nat) + " "@ + raw_text,
        FilterError::UnknownStaticValue { position, .. } => "Could not parse static filter value at position "@
            + decimal(position as nat) + " "@ + raw_text,
    }
}

impl<U> FilterError<U> {
    /// The text that describes the error to a user; `raw_text` renders the
    /// rejected entry and is used only for an unknown value.
    pub fn message(&self, raw_text: &str) -> (m: String)
        ensures
            m@ == filter_error_message(*self, raw_text@),
    {
        match self {
            FilterError::MultipleDiscrete => String::from_str(
                "Multiple discrete filters are not allowed",
            ),
            FilterError::UnknownDiscreteValue { position, .. } => {
                let mut m = String::from_str("Could not parse discrete filter value at position ");
                push_decimal(&mut m, *position);
                m.append(" ");
                m.append(raw_text);
                m
            },
            FilterError::UnknownStaticValue { position, .. } => {
                let mut m = String::from_str("Could not parse static filter value at position ");
                push_decimal(&mut m, *position);
                m.append(" ");
                m.append(raw_text);
                m
            },
        }
    }
}

/// `res` with `prefix` put in front of the filters it holds.
pub open spec fn after_prefix<S, D, U>(
    prefix: Seq<Filter<S, D>>,
    res: Result<Seq<Filter<S, D>>, FilterError<U>>,
) -> Result<Seq<Filter<S, D>>, FilterError<U>> {
    match res {
        Ok(fs) => Ok(prefix + fs),
        Err(e) => Err(e),
    }
}

proof fn lemma_after_prefix_push<S, D, U>(
    prefix: Seq<Filter<S, D>>,
    item: Filter<S, D>,
    res: Result<Seq<Filter<S, D>>, FilterError<U>>,
)
    ensures
        after_prefix(prefix, after_prefix(seq![item], res)) == after_prefix(prefix.push(item), res),
{
    if let Ok(fs) = res {
        assert(prefix + (seq![item] + fs) =~= prefix.push(item) + fs);
    }
}

/// The filters that `inputs` give when `pos` entries came before them and
/// `seen_discrete` tells whether one of those was discrete: each entry in
/// order becomes a filter, and the first entry that is a second discrete
/// filter, or whose value has no known kind, gives the error.
pub open spec fn filters_from<S, D, U>(
    inputs: Seq<FilterInput<S, D, U>>,
    pos: int,
    seen_discrete: bool,
) -> Result<Seq<Filter<S, D>>, FilterError<U>>
    decreases inputs.len(),
{
    if inputs.len() == 0 {
        Ok(Seq::empty())
    } else {
        let p = pos + 1;
        let rest = inputs.drop_first();
        match inputs[0] {
            FilterInput::Discrete { name, values } => {
                if seen_discrete {
                    Err(FilterError::MultipleDiscrete)
                } else {
                    match values {
                        FilterValue::Unknown(raw) => Err(
                            FilterError::UnknownDiscreteValue { position: p as u32, raw },
                        ),
                        FilterValue::Known(v) => after_prefix(
                            seq![Filter::Discrete { name, values: v }],
                            filters_from(rest, p, true),
                        ),
                    }
                }
            },
            FilterInput::Static { name, value } => match value {
                FilterValue::Unknown(raw) => Err(
                    FilterError::UnknownStaticValue { position: p as u32, raw },
                ),
                FilterValue::Known(v) => after_prefix(
                    seq![Filter::Static { name, value: v }],
                    filters_from(rest, p, seen_discrete),
                ),
            },
        }
    }
}

/// The number of discrete filters in `fs`.
pub open spec fn discrete_count<S, D>(fs: Seq<Filter<S, D>>) -> nat
    decreases fs.len(),
{
    if fs.len() == 0 {
        0
    } else {
        (if fs[0] is Discrete { 1nat } else { 0nat }) + discrete_count(fs.drop_first())
    }
}

/// The filter that entry `input` gives where its value is of a known kind.
pub open spec fn filter_of_input<S, D, U>(input: FilterInput<S, D, U>) -> Option<Filter<S, D>> {
    match input {
        FilterInput::Discrete { name, values: FilterValue::Known(v) } => Some(
            Filter::Discrete { name, values: v },
        ),
        FilterInput::Static { name, value: FilterValue::Known(v) } => Some(
            Filter::Static { name, value: v },
        ),
        _ => None,
    }
}

proof fn lemma_discrete_count_push_front<S, D>(f: Filter<S, D>, fs: Seq<Filter<S, D>>)
    ensures
        discrete_count(seq![f] + fs) == (if f is Discrete { 1nat } else { 0nat })
            + discrete_count(fs),
{
    assert((seq![f] + fs).drop_first() =~= fs);
}

/// An accepted list of filters holds at most one discrete filter (none
/// more where one came before).
pub proof fn law_at_most_one_discrete_filter<S, D, U>(
    inputs: Seq<FilterInput<S, D, U>>,
    pos: int,
    seen_discrete: bool,
)
    requires
        filters_from(inputs, pos, seen_discrete) is Ok,
    ensures
        discrete_count(filters_from(inputs, pos, seen_discrete)->Ok_0) <= (if seen_discrete {
            0nat
        } else {
            1nat
        }),
    decreases inputs.len(),
{
    if inputs.len() > 0 {
        let rest = inputs.drop_first();
        let p = pos + 1;
        match inputs[0] {
            FilterInput::Discrete { name, values } => {
                if let FilterValue::Known(v) = values {
                    law_at_most_one_discrete_filter(rest, p, true);
                    lemma_discrete_count_push_front(
                        Filter::Discrete { name, values: v },
                        filters_from(rest, p, true)->Ok_0,
                    );
                }
            },
            FilterInput::Static { name, value } => {
                if let FilterValue::Known(v) = value {
                    law_at_most_one_discrete_filter(rest, p, seen_discrete);
                    lemma_discrete_count_push_front(
                        Filter::Static { name, value: v },
                        filters_from(rest, p, seen_discrete)->Ok_0,
                    );
                }
            },
        }
    }
}

/// Every list of entries whose values are all of a known kind, and among
/// which at most one is discrete, is accepted, wherever the discrete entry
/// stands; where a discrete entry came before (`seen_discrete`), a list with
/// no discrete entry is accepted.
pub proof fn law_filters_accepted_when_valid<S, D, U>(
    inputs: Seq<FilterInput<S, D, U>>,
    pos: int,
    seen_discrete: bool,
)
    requires
        forall|i: int|
            0 <= i < inputs.len() ==> match #[trigger] inputs[i] {
                FilterInput::Discrete { values, .. } => values is Known,
                FilterInput::Static { value, .. } => value is Known,
            },
        forall|i: int, j: int|
            0 <= i < inputs.len() && 0 <= j < inputs.len() && #[trigger] inputs[i] is Discrete
                && #[trigger] inputs[j] is Discrete ==> i == j,
        seen_discrete ==> forall|i: int| 0 <= i < inputs.len() ==> !(#[trigger] inputs[i] is Discrete),
    ensures
        filters_from(inputs, pos, seen_discrete) is Ok,
    decreases inputs.len(),
{
    if inputs.len() > 0 {
        let rest = inputs.drop_first();
        assert forall|i: int| 0 <= i < rest.len() implies match #[trigger] rest[i] {
            FilterInput::Discrete { values, .. } => values is Known,
            FilterInput::Static { value, .. } => value is Known,
        } by {
            assert(rest[i] == inputs[i + 1]);
        }
        assert forall|i: int, j: int|
            0 <= i < rest.len() && 0 <= j < rest.len() && #[trigger] rest[i] is Discrete
                && #[trigger] rest[j] is Discrete implies i == j by {
            assert(rest[i] == inputs[i + 1]);
            assert(rest[j] == inputs[j + 1]);
        }
        let first = inputs[0];
        assert(match first {
            FilterInput::Discrete { values, .. } => values is Known,
            FilterInput::Static { value, .. } => value is Known,
        });
        let seen_next = seen_discrete || first is Discrete;
        assert forall|i: int| seen_next && 0 <= i < rest.len() implies !(#[trigger] rest[i] is Discrete) by {
            assert(rest[i] == inputs[i + 1]);
            if first is Discrete && rest[i] is Discrete {
                assert(inputs[i + 1] is Discrete);
            }
        }
        law_filters_accepted_when_valid(rest, pos + 1, seen_next);
    }
}

/// A refused list of filters is refused at one of its entries, `k`
/// (counted from 0, after `pos` earlier entries): every entry before `k`
/// has a value of a known kind, and no discrete entry before `k` follows
/// another discrete one; then either entry `k` is a second discrete entry,
/// or its value has no known kind and the error names position
/// `pos + k + 1` and carries that value.
pub proof fn law_filter_refusal_points_at_entry<S, D, U>(
    inputs: Seq<FilterInput<S, D, U>>,
    pos: int,
    seen_discrete: bool,
)
    requires
        filters_from(inputs, pos, seen_discrete) is Err,
    ensures
        exists|k: int|
            #![trigger inputs[k]]
            0 <= k < inputs.len() && (forall|j: int|
                0 <= j < k ==> match #[trigger] inputs[j] {
                    FilterInput::Discrete { values, .. } => values is Known,
                    FilterInput::Static { value, .. } => value is Known,
                }) && match filters_from(inputs, pos, seen_discrete)->Err_0 {
                FilterError::MultipleDiscrete => inputs[k] is Discrete && (seen_discrete
                    || exists|j: int| 0 <= j < k && #[trigger] inputs[j] is Discrete),
                FilterError::UnknownDiscreteValue { position, raw } => inputs[k] matches FilterInput::Discrete { values: FilterValue::Unknown(r), .. } && r == raw && position == (pos + k + 1) as u32,
                FilterError::UnknownStaticValue { position, raw } => inputs[k] matches FilterInput::Static { value: FilterValue::Unknown(r), .. } && r == raw && position == (pos + k + 1) as u32,
            },
    decreases inputs.len(),
{
    let first = inputs[0];
    let rest = inputs.drop_first();
    let seen_next = seen_discrete || first is Discrete;
    let e = filters_from(inputs, pos, seen_discrete)->Err_0;
    let first_known = match first {
        FilterInput::Discrete { values, .. } => values is Known,
        FilterInput::Static { value, .. } => value is Known,
    };
    if (first is Discrete && seen_discrete) || !first_known {
        assert(forall|j: int| 0 <= j < 0 ==> match #[trigger] inputs[j] {
            FilterInput::Discrete { values, .. } => values is Known,
            FilterInput::Static { value, .. } => value is Known,
        });
        assert(inputs[0] == first);
    } else {
        assert(filters_from(rest, pos + 1, seen_next) is Err);
        assert(filters_from(rest, pos + 1, seen_next)->Err_0 == e);
        law_filter_refusal_points_at_entry(rest, pos + 1, seen_next);
        let k = choose|k: int|
            #![trigger rest[k]]
            0 <= k < rest.len() && (forall|j: int|
                0 <= j < k ==> match #[trigger] rest[j] {
                    FilterInput::Discrete { values, .. } => values is Known,
                    FilterInput::Static { value, .. } => value is Known,
                }) && match e {
                FilterError::MultipleDiscrete => rest[k] is Discrete && (seen_next
                    || exists|j: int| 0 <= j < k && #[trigger] rest[j] is Discrete),
                FilterError::UnknownDiscreteValue { position, raw } => rest[k] matches FilterInput::Discrete { values: FilterValue::Unknown(r), .. } && r == raw && position == (pos + 1 + k + 1) as u32,
                FilterError::UnknownStaticValue { position, raw } => rest[k] matches FilterInput::Static { value: FilterValue::Unknown(r), .. } && r == raw && position == (pos + 1 + k + 1) as u32,
            };
        assert(inputs[k + 1] == rest[k]);
        assert forall|j: int| 0 <= j < k + 1 implies match #[trigger] inputs[j] {
            FilterInput::Discrete { values, .. } => values is Known,
            FilterInput::Static { value, .. } => value is Known,
        } by {
            if j > 0 {
                assert(inputs[j] == rest[j - 1]);
            }
        }
        if e is MultipleDiscrete && !seen_discrete {
            if first is Discrete {
                assert(inputs[0] is Discrete);
            } else {
                let j = choose|j: int| 0 <= j < k && #[trigger] rest[j] is Discrete;
                assert(inputs[j + 1] == rest[j]);
                assert(inputs[j + 1] is Discrete);
            }
        }
    }
}

/// An accepted list of filters keeps every entry, in file order, with its
/// name, kind and value.
pub proof fn law_filters_keep_entries_in_order<S, D, U>(
    inputs: Seq<FilterInput<S, D, U>>,
    pos: int,
    seen_discrete: bool,
)
    requires
        filters_from(inputs, pos, seen_discrete) is Ok,
    ensures
        filters_from(inputs, pos, seen_discrete)->Ok_0.len() == inputs.len(),
        forall|i: int|
            0 <= i < inputs.len() ==> filter_of_input(#[trigger] inputs[i]) == Some(
                filters_from(inputs, pos, seen_discrete)->Ok_0[i],
            ),
    decreases inputs.len(),
{
    if inputs.len() > 0 {
        let rest = inputs.drop_first();
        let p = pos + 1;
        let seen_next = seen_discrete || inputs[0] is Discrete;
        law_filters_keep_entries_in_order(rest, p, seen_next);
        let fs = filters_from(inputs, pos, seen_discrete)->Ok_0;
        let tail = filters_from(rest, p, seen_next)->Ok_0;
        assert(fs == seq![filter_of_input(inputs[0])->Some_0] + tail);
        assert forall|i: int| 0 <= i < inputs.len() implies filter_of_input(
            #[trigger] inputs[i],
        ) == Some(fs[i]) by {
            if i > 0 {
                assert(inputs[i] == rest[i - 1]);
            }
        }
    }
}

/// Takes the value of the static filter at `position`.
pub fn map_static_value<S, U>(static_value: FilterValue<S, U>, position: u32) -> (res: Result<
    S,
    FilterError<U>,
>)
    ensures
        match static_value {
            FilterValue::Known(v) => res == Ok::<S, FilterError<U>>(v),
            FilterValue::Unknown(raw) => res == Err::<S, FilterError<U>>(
                FilterError::UnknownStaticValue { position, raw },
            ),
        },
{
    match static_value {
        FilterValue::Known(v) => Ok(v),
        FilterValue::Unknown(raw) => Err(FilterError::UnknownStaticValue { position, raw }),
    }
}

/// Takes the values of the discrete filter at `position`.
pub fn map_discrete_value<D, U>(discrete_value: FilterValue<D, U>, position: u32) -> (res: Result<
    D,
    FilterError<U>,
>)
    ensures
        match discrete_value {
            FilterValue::Known(v) => res == Ok::<D, FilterError<U>>(v),
            FilterValue::Unknown(raw) => res == Err::<D, FilterError<U>>(
                FilterError::UnknownDiscreteValue { position, raw },
            ),
        },
{
    match discrete_value {
        FilterValue::Known(v) => Ok(v),
        FilterValue::Unknown(raw) => Err(FilterError::UnknownDiscreteValue { position, raw }),
    }
}

/// Turns the entries of a filters file into filters, in order. At most one
/// discrete filter is allowed, and every value must be of a known kind.
pub fn validate_filters<S, D, U>(filters: Vec<FilterInput<S, D, U>>) -> (res: Result<
    Vec<Filter<S, D>>,
    FilterError<U>,
>)
    requires
        filters@.len() <= u32::MAX,
    ensures
        match filters_from(filters@, 0, false) {
            Ok(fs) => res matches Ok(r) && r@ == fs,
            Err(e) => res == Err::<Vec<Filter<S, D>>, FilterError<U>>(e),
        },
{
    let ghost all = filters@;
    let mut result: Vec<Filter<S, D>> = Vec::new();
    let mut pos: u32 = 0;
    let mut count_discrete: u32 = 0;
    assert(all.skip(0) =~= all);
    for filter in it: filters
        invariant
            all == filters@,
            all.len() <= u32::MAX,
            it.seq() == all,
            pos == it.index(),
            count_discrete <= 1,
            result@.len() <= pos,
            filters_from(all, 0, false) == after_prefix(
                result@,
                filters_from(all.skip(pos as int), pos as int, count_discrete == 1),
            ),
    {
        let ghost rest = all.skip(pos as int);
        assert(rest[0] == filter);
        assert(rest.drop_first() =~= all.skip(pos + 1));
        pos = pos + 1;
        match filter {
            FilterInput::Discrete { name, values } => {
                count_discrete = count_discrete + 1;
                if count_discrete > 1 {
                    return Err(FilterError::MultipleDiscrete);
                }
                let v = map_discrete_value(values, pos)?;
                let item = Filter::Discrete { name, values: v };
                proof {
                    lemma_after_prefix_push(result@, item, filters_from(all.skip(pos as int), pos as int, true));
                }
                result.push(item);
            },
            FilterInput::Static { name, value } => {
                let v = map_static_value(value, pos)?;
                let item = Filter::Static { name, value: v };
                proof {
                    lemma_after_prefix_push(result@, item, filters_from(all.skip(pos as int), pos as int, count_discrete == 1));
                }
                result.push(item);
            },
        }
    }
    assert(all.skip(pos as int).len() == 0);
    assert(result@ + Seq::<Filter<S, D>>::empty() =~= result@);
    Ok(result)
}

// ------------------------------------------------------------------------
// Input files
// ------------------------------------------------------------------------

/// Why an input file was refused; each variant holds its message.
#[derive(Debug, PartialEq, Eq)]
pub enum InputFileError {
    /// The path has no file name.
    MissingFileName(String),
    /// The path does not name a regular file.
    NotAFile(String),
    /// The file is larger than allowed.
    TooLarge(String),
}

/// The number of bytes in `mb` mebibytes.
pub open spec fn mebibytes(mb: u64) -> int {
    mb * 1048576
}

/// `"` + `s` + `"`.
pub open spec fn quoted(s: Seq<char>) -> Seq<char> {
    "\""@ + s + "\""@
}

pub open spec fn msg_missing_file_name(input_name: Seq<char>) -> Seq<char> {
    "Could not get the file name for the input "@ + quoted(input_name)
}

pub open spec fn msg_not_a_file(input_name: Seq<char>, file_name: Seq<char>) -> Seq<char> {
    "The input "@ + quoted(input_name) + " with path "@ + quoted(file_name) + " is not a file"@
}

pub open spec fn msg_too_large(input_name: Seq<char>, file_name: Seq<char>) -> Seq<char> {
    "The input "@ + quoted(input_name) + " with path "@ + quoted(file_name) + " is too large"@
}

fn push_quoted(s: &mut String, text: &str)
    ensures
        final(s)@ == old(s)@ + quoted(text@),
{
    s.append("\"");
    s.append(text);
    s.append("\"");
}

/// Takes the file name of the input called `input_name`, found on its
/// path as `file_name`.
pub fn check_input_file_name(input_name: &str, file_name: Option<String>) -> (res: Result<
    String,
    InputFileError,
>)
    ensures
        match file_name {
            Some(name) => res == Ok::<String, InputFileError>(name),
            None => res matches Err(InputFileError::MissingFileName(m)) && m@
                == msg_missing_file_name(input_name@),
        },
{
    match file_name {
        Some(name) => Ok(name),
        None => {
            let mut m = String::from_str("Could not get the file name for the input ");
            push_quoted(&mut m, input_name);
            Err(InputFileError::MissingFileName(m))
        },
    }
}

/// Checks the metadata of an opened input file: it must be a regular file
/// of at most `max_size_mb` mebibytes.
pub fn check_input_file(
    input_name: &str,
    file_name: &str,
    is_file: bool,
    len: u64,
    max_size_mb: u64,
) -> (res: Result<(), InputFileError>)
    requires
        is_file ==> mebibytes(max_size_mb) <= u64::MAX,
    ensures
        !is_file ==> (res matches Err(InputFileError::NotAFile(m)) && m@ == msg_not_a_file(
            input_name@,
            file_name@,
        )),
        is_file && len > mebibytes(max_size_mb) ==> (res matches Err(InputFileError::TooLarge(m))
            && m@ == msg_too_large(input_name@, file_name@)),
        is_file && len <= mebibytes(max_size_mb) ==> res is Ok,
{
    if !is_file {
        let mut m = String::from_str("The input ");
        push_quoted(&mut m, input_name);
        m.append(" with path ");
        push_quoted(&mut m, file_name);
        m.append(" is not a file");
        return Err(InputFileError::NotAFile(m));
    }
    if len > max_size_mb * 1024 * 1024 {
        let mut m = String::from_str("The input ");
        push_quoted(&mut m, input_name);
        m.append(" with path ");
        push_quoted(&mut m, file_name);
        m.append(" is too large");
        return Err(InputFileError::TooLarge(m));
    }
    Ok(())
}

// ------------------------------------------------------------------------
// Gathering the inputs of a run
// ------------------------------------------------------------------------

/// The largest query file, in mebibytes.
pub const MAX_SQL_FILE_MB: u64 = 10;

/// The largest filters file, in mebibytes.
pub const MAX_FILTERS_FILE_MB: u64 = 100;

/// The largest connection string file, in mebibytes.
pub const MAX_CONNECTION_STRING_FILE_MB: u64 = 1;

/// One input that a run must gather before the report can start.
#[derive(Debug)]
pub enum InputStep {
    /// Read the query from a file of at most `max_size_mb` mebibytes.
    ReadQuery { path: PathBuf, max_size_mb: u64 },
    /// Read and check the filters from a file of at most `max_size_mb`
    /// mebibytes.
    ReadFilters { path: PathBuf, max_size_mb: u64 },
    /// Ask the Azure command line tools for a database token.
    FetchAzCliToken,
    /// Read the connection string from a file of at most `max_size_mb`
    /// mebibytes.
    ReadConnectionString { path: PathBuf, max_size_mb: u64 },
}

/// The name under which a step's input file is reported, where it reads one.
pub open spec fn input_label(step: InputStep) -> Option<Seq<char>> {
    match step {
        InputStep::ReadQuery { .. } => Some("sql file"@),
        InputStep::ReadFilters { .. } => Some("filters file"@),
        InputStep::FetchAzCliToken => None,
        InputStep::ReadConnectionString { .. } => Some("connection string"@),
    }
}

impl InputStep {
    /// The name under which this step's input file is reported.
    pub fn input_name(&self) -> (r: Option<&'static str>)
        ensures
            match r {
                Some(name) => input_label(*self) == Some(name@),
                None => input_label(*self) is None,
            },
    {
        match self {
            InputStep::ReadQuery { .. } => Some("sql file"),
            InputStep::ReadFilters { .. } => Some("filters file"),
            InputStep::FetchAzCliToken => None,
            InputStep::ReadConnectionString { .. } => Some("connection string"),
        }
    }
}

/// The inputs that a run with `args` gathers, in the order it gathers
/// them: the query, then the filters where a filters file is given, then
/// the credentials.
pub open spec fn input_steps_of(args: CliArgs) -> Seq<InputStep> {
    let query = seq![InputStep::ReadQuery { path: args.sql_file, max_size_mb: MAX_SQL_FILE_MB }];
    let filters = match args.filters_file {
        Some(path) => seq![InputStep::ReadFilters { path, max_size_mb: MAX_FILTERS_FILE_MB }],
        None => Seq::empty(),
    };
    let auth = match args.auth {
        ArgAuthType::UseAzCliToken => InputStep::FetchAzCliToken,
        ArgAuthType::UseConnectionString(path) => InputStep::ReadConnectionString {
            path,
            max_size_mb: MAX_CONNECTION_STRING_FILE_MB,
        },
    };
    query + filters + seq![auth]
}

/// A run reads its query first (at most 10 MiB); where a filters file is
/// given, it reads it next (at most 100 MiB), whatever the credentials;
/// it ends with exactly one credentials step: the Azure CLI token, or the
/// connection string file (at most 1 MiB). Nothing else is gathered.
pub proof fn law_input_steps(args: CliArgs)
    ensures
        input_steps_of(args).len() == (if args.filters_file is Some { 3int } else { 2int }),
        input_steps_of(args)[0] == (InputStep::ReadQuery { path: args.sql_file, max_size_mb: 10 }),
        args.filters_file matches Some(p) ==> input_steps_of(args)[1] == (InputStep::ReadFilters {
            path: p,
            max_size_mb: 100,
        }),
        args.auth matches ArgAuthType::UseAzCliToken ==> input_steps_of(args).last()
            == InputStep::FetchAzCliToken,
        args.auth matches ArgAuthType::UseConnectionString(p) ==> input_steps_of(args).last() == (
        InputStep::ReadConnectionString { path: p, max_size_mb: 1 }),
{
}

/// Lists the inputs that a run with `args` gathers, in order.
pub fn input_steps(args: CliArgs) -> (steps: Vec<InputStep>)
    ensures
        steps@ == input_steps_of(args),
        steps@.len() == (if args.filters_file is Some { 3int } else { 2int }),
        steps@[0] == (InputStep::ReadQuery { path: args.sql_file, max_size_mb: 10 }),
        args.filters_file matches Some(p) ==> steps@[1] == (InputStep::ReadFilters {
            path: p,
            max_size_mb: 100,
        }),
        args.auth matches ArgAuthType::UseAzCliToken ==> steps@.last() == InputStep::FetchAzCliToken,
        args.auth matches ArgAuthType::UseConnectionString(p) ==> steps@.last() == (
        InputStep::ReadConnectionString { path: p, max_size_mb: 1 }),
{
    proof {
        law_input_steps(args);
    }
    let mut steps: Vec<InputStep> = Vec::new();
    steps.push(InputStep::ReadQuery { path: args.sql_file, max_size_mb: MAX_SQL_FILE_MB });
    if let Some(path) = args.filters_file {
        steps.push(InputStep::ReadFilters { path, max_size_mb: MAX_FILTERS_FILE_MB });
    }
    match args.auth {
        ArgAuthType::UseAzCliToken => steps.push(InputStep::FetchAzCliToken),
        ArgAuthType::UseConnectionString(path) => steps.push(
            InputStep::ReadConnectionString { path, max_size_mb: MAX_CONNECTION_STRING_FILE_MB },
        ),
    }
    steps
}

} // verus!
