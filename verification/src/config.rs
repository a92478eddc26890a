use crate::fields::{field_table, ConfigField, ValueKind, FIELD_COUNT};
use crate::text::{append_decimal, append_hexadecimal, append_spaces, decimal, hexadecimal, spaces};
use vstd::prelude::*;
use vstd::string::*;

verus! {

/// A value read from the configuration resource, as the plain data that the report needs.
#[derive(Clone, Debug, PartialEq, Eq)]
pub enum ConfigValue {
    /// A string: a directory path or the name of an idle strategy.
    Text(String),
    /// A string that may be absent: the initialization arguments of an idle strategy.
    OptionalText(Option<String>),
    /// A switch.
    Flag(bool),
    /// A byte length, a duration in nanoseconds, a ratio or a hop count.
    Number(u64),
    /// The threading mode, as the number that the native layer uses for it.
    ThreadingMode(u32),
    /// The address of a strategy supplier, where one is set.
    Supplier(Option<usize>),
}

/// One line of the report: a field and the value read for it.
#[derive(Clone, Debug, PartialEq, Eq)]
pub struct ConfigEntry {
    pub field: ConfigField,
    pub value: ConfigValue,
}

/// The name of the threading mode that the native layer numbers `mode`.
pub open spec fn threading_mode_name(mode: u32) -> Seq<char> {
    if mode == 0 {
        "DEDICATED"@
    } else if mode == 1 {
        "SHARED_NETWORK"@
    } else if mode == 2 {
        "SHARED"@
    } else if mode == 3 {
        "INVOKER"@
    } else {
        "UNKNOWN"@
    }
}

/// Names a threading mode; a number that stands for none reads `UNKNOWN`.
pub fn threading_mode_to_str(mode: u32) -> (name: &'static str)
    ensures
        name@ == threading_mode_name(mode),
{
    match mode {
        0 => "DEDICATED",
        1 => "SHARED_NETWORK",
        2 => "SHARED",
        3 => "INVOKER",
        _ => "UNKNOWN",
    }
}

/// What `Debug` formatting of `str` writes for `text`: the text between double quotes,
/// with the characters that a string literal cannot hold as they are written as escapes.
pub uninterp spec fn debug_text(text: Seq<char>) -> Seq<char>;

/// Formats `text` with `Debug` of `str`. The result is what the standard library writes
/// for it, which this crate names `debug_text` and does not state.
#[verifier::external_body]
fn quote(text: &str) -> (quoted: String)
    ensures
        quoted@ == debug_text(text@),
{
    format!("{:?}", text)
}

impl ConfigValue {
    /// The kind of the value.
    pub open spec fn kind_of_value(self) -> ValueKind {
        match self {
            ConfigValue::Text(_) => ValueKind::Text,
            ConfigValue::OptionalText(_) => ValueKind::OptionalText,
            ConfigValue::Flag(_) => ValueKind::Flag,
            ConfigValue::Number(_) => ValueKind::Number,
            ConfigValue::ThreadingMode(_) => ValueKind::ThreadingMode,
            ConfigValue::Supplier(_) => ValueKind::Supplier,
        }
    }

    /// The kind of the value.
    pub fn kind(&self) -> (kind: ValueKind)
        ensures
            kind == self.kind_of_value(),
    {
        match self {
            ConfigValue::Text(_) => ValueKind::Text,
            ConfigValue::OptionalText(_) => ValueKind::OptionalText,
            ConfigValue::Flag(_) => ValueKind::Flag,
            ConfigValue::Number(_) => ValueKind::Number,
            ConfigValue::ThreadingMode(_) => ValueKind::ThreadingMode,
            ConfigValue::Supplier(_) => ValueKind::Supplier,
        }
    }

    /// The text that the report shows for the value.
    pub open spec fn formatted(self) -> Seq<char> {
        match self {
            ConfigValue::Text(text) => debug_text(text@),
            ConfigValue::OptionalText(None) => "None"@,
            ConfigValue::OptionalText(Some(text)) => "Some("@ + debug_text(text@) + ")"@,
            ConfigValue::Flag(true) => "true"@,
            ConfigValue::Flag(false) => "false"@,
            ConfigValue::Number(n) => decimal(n as nat),
            ConfigValue::ThreadingMode(mode) => threading_mode_name(mode),
            ConfigValue::Supplier(None) => "None"@,
            ConfigValue::Supplier(Some(address)) => "Some("@ + hexadecimal(address as nat) + ")"@,
        }
    }

    /// Formats the value as the report shows it.
    pub fn format(&self) -> (text: String)
        ensures
            text@ == self.formatted(),
    {
        match self {
            ConfigValue::Text(text) => quote(text.as_str()),
            ConfigValue::OptionalText(None) => String::from_str("None"),
            ConfigValue::OptionalText(Some(text)) => {
                let quoted = quote(text.as_str());
                wrap_some(quoted.as_str())
            },
            ConfigValue::Flag(true) => String::from_str("true"),
            ConfigValue::Flag(false) => String::from_str("false"),
            ConfigValue::Number(n) => {
                let mut text = String::new();
                append_decimal(&mut text, *n);
                assert(text@ =~= decimal(*n as nat));
                text
            },
            ConfigValue::ThreadingMode(mode) => String::from_str(threading_mode_to_str(*mode)),
            ConfigValue::Supplier(None) => String::from_str("None"),
            ConfigValue::Supplier(Some(address)) => {
                let mut text = String::new();
                append_hexadecimal(&mut text, *address as u64);
                assert(text@ =~= hexadecimal(*address as nat));
                wrap_some(text.as_str())
            },
        }
    }
}

/// Writes `inner` between `Some(` and `)`.
pub fn wrap_some(inner: &str) -> (text: String)
    ensures
        text@ == "Some("@ + inner@ + ")"@,
{
    let mut text = String::from_str("Some(");
    text.append(inner);
    text.append(")");
    text
}

/// Whether `value` is of the kind that `field` holds.
pub open spec fn kind_matches(field: ConfigField, value: ConfigValue) -> bool {
    field.kind_of_value() == value.kind_of_value()
}

/// Whether `values` holds one value for every field of the table, in the order of the
/// table and each of its field's kind.
pub open spec fn fits_table(values: Seq<ConfigValue>) -> bool {
    &&& values.len() == FIELD_COUNT
    &&& forall|i: int| 0 <= i < FIELD_COUNT ==> kind_matches(field_table()[i], #[trigger] values[i])
}

/// The snapshot of a configuration: the values that were read through its handle, one
/// for every field of the table and in its order, each paired with its field. Values
/// that do not fit the table make no snapshot.
pub fn snapshot(values: Vec<ConfigValue>) -> (entries: Option<Vec<ConfigEntry>>)
    ensures
        entries is Some <==> fits_table(values@),
        entries is Some ==> entries->0@.len() == FIELD_COUNT && forall|i: int|
            0 <= i < FIELD_COUNT ==> (#[trigger] entries->0@[i]).field == field_table()[i]
                && entries->0@[i].value == values@[i],
{
    let table = ConfigField::table();
    if values.len() != FIELD_COUNT {
        return None;
    }
    let mut checked: usize = 0;
    while checked < FIELD_COUNT
        invariant
            checked <= FIELD_COUNT,
            values@.len() == FIELD_COUNT,
            table@ == field_table(),
            forall|i: int| 0 <= i < checked ==> kind_matches(field_table()[i], #[trigger] values@[i]),
        decreases FIELD_COUNT - checked,
    {
        if table[checked].kind() != values[checked].kind() {
            assert(!kind_matches(field_table()[checked as int], values@[checked as int]));
            return None;
        }
        checked = checked + 1;
    }
    let ghost given = values@;
    let mut values = values;
    let mut entries: Vec<ConfigEntry> = Vec::new();
    let mut left: usize = FIELD_COUNT;
    while left > 0
        invariant
            left <= FIELD_COUNT,
            table@ == field_table(),
            given.len() == FIELD_COUNT,
            values@ == given.take(left as int),
            entries@.len() == FIELD_COUNT - left,
            forall|i: int|
                0 <= i < entries@.len() ==> (#[trigger] entries@[i]).field == field_table()[left + i]
                    && entries@[i].value == given[left + i],
        decreases left,
    {
        let value = values.pop();
        left = left - 1;
        match value {
            Some(value) => {
                entries.insert(0, ConfigEntry { field: table[left], value });
            },
            None => {},
        }
        assert(values@ =~= given.take(left as int));
    }
    Some(entries)
}

/// The length of the longest name among `entries`; zero where there are none.
pub open spec fn widest_name(entries: Seq<ConfigEntry>) -> nat
    decreases entries.len(),
{
    if entries.len() == 0 {
        0
    } else {
        let rest = widest_name(entries.drop_last());
        let last = entries.last().field.name_text().len();
        if last > rest {
            last
        } else {
            rest
        }
    }
}

/// The width of the name column: two more than the longest name; zero for no entries.
pub open spec fn column_width(entries: Seq<ConfigEntry>) -> nat {
    if entries.len() == 0 {
        0
    } else {
        widest_name(entries) + 2
    }
}

/// How many spaces follow a name of `length` characters in a column of `width`.
pub open spec fn padding(length: nat, width: nat) -> nat {
    if width > length {
        (width - length) as nat
    } else {
        0
    }
}

/// One line of the report: the name, spaces up to the column's width, a colon, a space,
/// and the formatted value.
pub open spec fn entry_line(name: Seq<char>, value: Seq<char>, width: nat) -> Seq<char> {
    name + spaces(padding(name.len(), width)) + seq![':', ' '] + value
}

/// The lines of the report, one for each entry and in their order.
pub open spec fn report_lines(entries: Seq<ConfigEntry>) -> Seq<Seq<char>> {
    Seq::new(
        entries.len(),
        |i: int|
            entry_line(
                entries[i].field.name_text(),
                entries[i].value.formatted(),
                column_width(entries),
            ),
    )
}

/// The lines, each ended by a line feed.
pub open spec fn joined(lines: Seq<Seq<char>>) -> Seq<char>
    decreases lines.len(),
{
    if lines.len() == 0 {
        Seq::empty()
    } else {
        joined(lines.drop_last()) + lines.last() + seq!['\n']
    }
}

/// The whole report: its lines, then one empty line.
pub open spec fn report_text(entries: Seq<ConfigEntry>) -> Seq<char> {
    joined(report_lines(entries)) + seq!['\n']
}

/// No name is longer than the widest, and the widest is the length of one of them.
pub proof fn lemma_widest_name(entries: Seq<ConfigEntry>)
    ensures
        forall|i: int|
            0 <= i < entries.len() ==> (#[trigger] entries[i]).field.name_text().len()
                <= widest_name(entries),
        entries.len() > 0 ==> exists|i: int|
            0 <= i < entries.len() && (#[trigger] entries[i]).field.name_text().len()
                == widest_name(entries),
    decreases entries.len(),
{
    if entries.len() > 0 {
        let rest = entries.drop_last();
        lemma_widest_name(rest);
        assert forall|i: int| 0 <= i < entries.len() implies (#[trigger] entries[i]).field.name_text().len()
            <= widest_name(entries) by {
            if i < rest.len() {
                assert(entries[i] == rest[i]);
            }
        }
        if entries.last().field.name_text().len() > widest_name(rest) || rest.len() == 0 {
            assert(entries[entries.len() - 1].field.name_text().len() == widest_name(entries));
        } else {
            let i = choose|i: int|
                0 <= i < rest.len() && (#[trigger] rest[i]).field.name_text().len() == widest_name(
                    rest,
                );
            assert(entries[i] == rest[i]);
        }
    }
}

/// In every line of a report the colon stands in the same column, two places after the
/// end of the longest name, and the formatted value starts two places further.
pub proof fn lemma_lines_are_aligned(entries: Seq<ConfigEntry>, i: int)
    requires
        0 <= i < entries.len(),
    ensures
        report_lines(entries).len() == entries.len(),
        report_lines(entries)[i].len() == column_width(entries) + 2
            + entries[i].value.formatted().len(),
        report_lines(entries)[i].subrange(0, entries[i].field.name_text().len() as int)
            == entries[i].field.name_text(),
        forall|k: int|
            entries[i].field.name_text().len() <= k < column_width(entries)
                ==> report_lines(entries)[i][k] == ' ',
        report_lines(entries)[i][column_width(entries) as int] == ':',
        report_lines(entries)[i][column_width(entries) as int + 1] == ' ',
        report_lines(entries)[i].subrange(
            column_width(entries) as int + 2,
            report_lines(entries)[i].len() as int,
        ) == entries[i].value.formatted(),
{
    lemma_widest_name(entries);
    let name = entries[i].field.name_text();
    let value = entries[i].value.formatted();
    let width = column_width(entries);
    let line = report_lines(entries)[i];
    assert(line == entry_line(name, value, width));
    assert(name.len() + 2 <= width);
    assert(line.subrange(0, name.len() as int) =~= name);
    assert(line.subrange(width as int + 2, line.len() as int) =~= value);
}

/// The report of a snapshot names the table: it has one line for every field, in the
/// order of the table, and each line begins with the name of its field and ends with
/// the formatted value that was read for it.
pub proof fn lemma_snapshot_report_names_the_table(entries: Seq<ConfigEntry>, i: int)
    requires
        entries.len() == FIELD_COUNT,
        forall|k: int| 0 <= k < FIELD_COUNT ==> (#[trigger] entries[k]).field == field_table()[k],
        0 <= i < FIELD_COUNT,
    ensures
        report_lines(entries).len() == FIELD_COUNT,
        report_lines(entries)[i] == entry_line(
            field_table()[i].name_text(),
            entries[i].value.formatted(),
            column_width(entries),
        ),
        report_lines(entries)[i].subrange(0, field_table()[i].name_text().len() as int)
            == field_table()[i].name_text(),
        report_lines(entries)[i][column_width(entries) as int] == ':',
{
    lemma_lines_are_aligned(entries, i);
}

/// The length of the longest name among `entries`.
pub fn widest_name_length(entries: &Vec<ConfigEntry>) -> (widest: usize)
    ensures
        widest == widest_name(entries@),
{
    let mut widest: usize = 0;
    let mut i: usize = 0;
    while i < entries.len()
        invariant
            i <= entries.len(),
            widest == widest_name(entries@.take(i as int)),
        decreases entries.len() - i,
    {
        let length = entries[i].field.name().unicode_len();
        assert(entries@.take(i + 1).drop_last() =~= entries@.take(i as int));
        if length > widest {
            widest = length;
        }
        i = i + 1;
    }
    assert(entries@.take(i as int) =~= entries@);
    widest
}

/// Writes one line of a report whose longest name has `widest` characters: the name is
/// padded with spaces to two columns more than that.
pub fn render_line(name: &str, value: &str, widest: usize) -> (line: String)
    ensures
        line@ == entry_line(name@, value@, widest as nat + 2),
{
    let length = name.unicode_len();
    let mut line = String::from_str(name);
    proof {
        reveal_strlit(" ");
        reveal_strlit(": ");
    }
    if length <= widest {
        append_spaces(&mut line, widest - length);
        line.append(" ");
        line.append(" ");
        assert(line@ =~= name@ + spaces(padding(name@.len(), widest as nat + 2)));
    } else if length - widest == 1 {
        line.append(" ");
        assert(line@ =~= name@ + spaces(padding(name@.len(), widest as nat + 2)));
    } else {
        assert(line@ =~= name@ + spaces(padding(name@.len(), widest as nat + 2)));
    }
    line.append(": ");
    line.append(value);
    assert(line@ =~= entry_line(name@, value@, widest as nat + 2));
    line
}

/// Formats every entry and writes its line, all names padded to one width.
pub fn render_lines(entries: &Vec<ConfigEntry>) -> (lines: Vec<String>)
    ensures
        lines@.len() == entries@.len(),
        forall|i: int| 0 <= i < lines@.len() ==> (#[trigger] lines@[i])@ == report_lines(entries@)[i],
{
    let widest = widest_name_length(entries);
    let mut lines: Vec<String> = Vec::new();
    let mut i: usize = 0;
    while i < entries.len()
        invariant
            i <= entries.len(),
            widest == widest_name(entries@),
            lines@.len() == i,
            forall|k: int| 0 <= k < i ==> (#[trigger] lines@[k])@ == report_lines(entries@)[k],
        decreases entries.len() - i,
    {
        let value = entries[i].value.format();
        let line = render_line(entries[i].field.name(), value.as_str(), widest);
        lines.push(line);
        i = i + 1;
    }
    lines
}

/// The report of a snapshot: one line for each entry, in their order, and a blank line
/// after the last.
pub fn render_config(entries: &Vec<ConfigEntry>) -> (text: String)
    ensures
        text@ == report_text(entries@),
{
    let lines = render_lines(entries);
    let mut text = String::new();
    let mut i: usize = 0;
    proof {
        reveal_strlit("\n");
    }
    while i < lines.len()
        invariant
            i <= lines.len(),
            lines@.len() == entries@.len(),
            forall|k: int| 0 <= k < lines@.len() ==> (#[trigger] lines@[k])@ == report_lines(entries@)[k],
            text@ == joined(report_lines(entries@).take(i as int)),
            "\n"@ == seq!['\n'],
        decreases lines.len() - i,
    {
        assert(report_lines(entries@).take(i + 1).drop_last() =~= report_lines(entries@).take(
            i as int,
        ));
        text.append(lines[i].as_str());
        text.append("\n");
        i = i + 1;
    }
    assert(report_lines(entries@).take(i as int) =~= report_lines(entries@));
    text.append("\n");
    text
}

} // verus!
