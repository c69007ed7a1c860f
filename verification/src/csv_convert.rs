//! Records of a table, labelled by the header row and written out as JSON or
//! YAML. Reading the table is the caller's part; writing the text out too.

use serde_json::Value;
use vstd::prelude::*;
use vstd::string::StringExecFns;

verus! {

/// The text format that records are written in.
#[derive(Debug, Clone, Copy, PartialEq, Eq, Structural)]
pub enum OutputFormat {
    /// Pretty-printed JSON.
    Json,
    /// YAML.
    Yaml,
}

/// Why a table could not be converted.
#[derive(Debug, Clone, Copy, PartialEq, Eq, Structural)]
pub enum ConvertError {
    /// The format token names no output format.
    UnknownFormat,
    /// The records could not be written as JSON.
    Json,
    /// The records could not be written as YAML.
    Yaml,
}

/// A record whose fields are labelled: pairs of header and field.
pub type Row = Vec<(String, String)>;

/// Labelled records, each label and field taken by its view.
pub type RowsView = Seq<Seq<(Seq<char>, Seq<char>)>>;

/// Texts, each taken by its view.
pub open spec fn texts_view(texts: Seq<String>) -> Seq<Seq<char>> {
    Seq::new(texts.len(), |i: int| texts[i]@)
}

/// A labelled record, each label and field taken by its view.
pub open spec fn row_view(row: Seq<(String, String)>) -> Seq<(Seq<char>, Seq<char>)> {
    Seq::new(row.len(), |i: int| (row[i].0@, row[i].1@))
}

/// Labelled records, each label and field taken by its view.
pub open spec fn rows_view(rows: Seq<Row>) -> RowsView {
    Seq::new(rows.len(), |i: int| row_view(rows[i]@))
}

/// Records, each field taken by its view.
pub open spec fn records_view(records: Seq<Vec<String>>) -> Seq<Seq<Seq<char>>> {
    Seq::new(records.len(), |i: int| texts_view(records[i]@))
}

/// A record labelled by the headers: the first field with the first header,
/// the second with the second, and so on as far as both reach.
pub open spec fn labelled(headers: Seq<Seq<char>>, record: Seq<Seq<char>>) -> Seq<
    (Seq<char>, Seq<char>),
> {
    Seq::new(
        if headers.len() <= record.len() {
            headers.len()
        } else {
            record.len()
        },
        |i: int| (headers[i], record[i]),
    )
}

/// Every record labelled by the headers.
pub open spec fn labelled_all(headers: Seq<Seq<char>>, records: Seq<Seq<Seq<char>>>) -> RowsView {
    Seq::new(records.len(), |i: int| labelled(headers, records[i]))
}

/// The pretty-printed JSON text of labelled records: an array with one
/// object per record. `None` where `serde_json` cannot write them.
pub uninterp spec fn json_text(rows: RowsView) -> Option<Seq<char>>;

/// The YAML text of labelled records: a sequence with one mapping per
/// record. `None` where `serde_yaml` cannot write them.
pub uninterp spec fn yaml_text(rows: RowsView) -> Option<Seq<char>>;

/// Why `serde_json` could not write a value. Opaque.
#[verifier::external_type_specification]
#[verifier::external_body]
pub struct ExJsonError(serde_json::Error);

/// Why `serde_yaml` could not write a value. Opaque.
#[verifier::external_type_specification]
#[verifier::external_body]
pub struct ExYamlError(serde_yaml::Error);

/// Collects each record into a `serde_json::Value` object and calls
/// `serde_json::to_string_pretty` on the array of them. Trusted: whether this
/// succeeds, and the text, depend on the records alone.
#[verifier::external_body]
fn to_json(rows: &Vec<Row>) -> (text: Result<String, serde_json::Error>)
    ensures
        text is Ok <==> json_text(rows_view(rows@)) is Some,
        text matches Ok(s) ==> json_text(rows_view(rows@)) == Some(s@),
{
    let values: Vec<Value> = rows
        .iter()
        .map(|row| row.iter().map(|(k, v)| (k.as_str(), v.as_str())).collect::<Value>())
        .collect();
    serde_json::to_string_pretty(&values)
}

/// Collects each record into a `serde_json::Value` object and calls
/// `serde_yaml::to_string` on the array of them. Trusted: whether this
/// succeeds, and the text, depend on the records alone.
#[verifier::external_body]
fn to_yaml(rows: &Vec<Row>) -> (text: Result<String, serde_yaml::Error>)
    ensures
        text is Ok <==> yaml_text(rows_view(rows@)) is Some,
        text matches Ok(s) ==> yaml_text(rows_view(rows@)) == Some(s@),
{
    let values: Vec<Value> = rows
        .iter()
        .map(|row| row.iter().map(|(k, v)| (k.as_str(), v.as_str())).collect::<Value>())
        .collect();
    serde_yaml::to_string(&values)
}

impl OutputFormat {
    /// The token that names this format.
    pub open spec fn token(self) -> Seq<char> {
        match self {
            OutputFormat::Json => "json"@,
            OutputFormat::Yaml => "yaml"@,
        }
    }

    /// The token that names this format, as text.
    pub fn name(self) -> (text: &'static str)
        ensures
            text@ == self.token(),
    {
        match self {
            OutputFormat::Json => "json",
            OutputFormat::Yaml => "yaml",
        }
    }
}

/// What [`parse_output_format`] makes of a token.
pub open spec fn parsed_output_format(token: Seq<char>) -> Result<OutputFormat, ConvertError> {
    if token == OutputFormat::Json.token() {
        Ok(OutputFormat::Json)
    } else if token == OutputFormat::Yaml.token() {
        Ok(OutputFormat::Yaml)
    } else {
        Err(ConvertError::UnknownFormat)
    }
}

/// Reads an output format token: `json` or `yaml`, nothing else.
pub fn parse_output_format(format: &str) -> (parsed: Result<OutputFormat, ConvertError>)
    ensures
        parsed == parsed_output_format(format@),
{
    let given = String::from_str(format);
    if given == String::from_str("json") {
        Ok(OutputFormat::Json)
    } else if given == String::from_str("yaml") {
        Ok(OutputFormat::Yaml)
    } else {
        Err(ConvertError::UnknownFormat)
    }
}

/// Labels the fields of a record with the headers. Fields without a header
/// and headers without a field are dropped.
pub fn label_record(headers: &Vec<String>, record: &Vec<String>) -> (row: Row)
    ensures
        row_view(row@) == labelled(texts_view(headers@), texts_view(record@)),
{
    let count = if headers.len() <= record.len() {
        headers.len()
    } else {
        record.len()
    };
    let mut row: Row = Vec::new();
    let mut i: usize = 0;
    while i < count
        invariant
            i <= count,
            count <= headers@.len(),
            count <= record@.len(),
            row@.len() == i,
            forall|j: int| 0 <= j < i ==> (#[trigger] row@[j]).0@ == headers@[j]@ && row@[j].1@
                == record@[j]@,
        decreases count - i,
    {
        row.push((headers[i].clone(), record[i].clone()));
        i += 1;
    }
    assert(row_view(row@) =~= labelled(texts_view(headers@), texts_view(record@)));
    row
}

/// The text that [`process_csv`] returns for labelled records.
pub open spec fn rendered(rows: RowsView, format: OutputFormat) -> Result<Seq<char>, ConvertError> {
    match format {
        OutputFormat::Json => match json_text(rows) {
            Some(text) => Ok(text),
            None => Err(ConvertError::Json),
        },
        OutputFormat::Yaml => match yaml_text(rows) {
            Some(text) => Ok(text),
            None => Err(ConvertError::Yaml),
        },
    }
}

/// A fallible text taken by its view.
pub open spec fn converted_view(text: Result<String, ConvertError>) -> Result<
    Seq<char>,
    ConvertError,
> {
    match text {
        Ok(s) => Ok(s@),
        Err(e) => Err(e),
    }
}

/// Converts a table to text: every record is labelled by the headers, and
/// the labelled records are written in the given format, in their order.
pub fn process_csv(headers: &Vec<String>, records: &Vec<Vec<String>>, format: OutputFormat) -> (text:
    Result<String, ConvertError>)
    ensures
        converted_view(text) == rendered(
            labelled_all(texts_view(headers@), records_view(records@)),
            format,
        ),
{
    let mut ret: Vec<Row> = Vec::new();
    let mut i: usize = 0;
    while i < records.len()
        invariant
            i <= records@.len(),
            ret@.len() == i,
            forall|j: int|
                0 <= j < i ==> row_view((#[trigger] ret@[j])@) == labelled(
                    texts_view(headers@),
                    texts_view(records@[j]@),
                ),
        decreases records@.len() - i,
    {
        ret.push(label_record(headers, &records[i]));
        i += 1;
    }
    assert(rows_view(ret@) =~= labelled_all(texts_view(headers@), records_view(records@)));
    match format {
        OutputFormat::Json => match to_json(&ret) {
            Ok(text) => Ok(text),
            Err(_) => Err(ConvertError::Json),
        },
        OutputFormat::Yaml => match to_yaml(&ret) {
            Ok(text) => Ok(text),
            Err(_) => Err(ConvertError::Yaml),
        },
    }
}

} // verus!
