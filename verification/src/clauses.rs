//! The parts that statements are built from: options, assignments, column
//! definitions, schemas of data sources, file formats and drop clauses.

use crate::error::ParserError;
use crate::expr::checks::{optional_is_renderable, optional_is_well_formed};
use crate::expr::equality::{optional_clone, optional_same};
use crate::expr::render::optional_string;
use crate::expr::{
    optional_model, optional_renderable, optional_text, optional_well_formed, ASTNode, ExprModel,
};
use crate::list::{clone_list, lists_equal, models};
use crate::name::{dotted, SQLIdent, SQLObjectName};
use crate::sqltype::{SQLType, TypeModel};
use crate::text::{
    append_if, append_optional, comma_separated_string, if_set, join, optional_clause, str_eq,
    views,
};
use crate::value::{quote_string, single_quoted, Value};
use vstd::prelude::*;
use vstd::std_specs::cmp::PartialEqSpecImpl;
use vstd::string::*;

verus! {

/// An option of a `WITH (...)` clause: `name = value`.
#[derive(Debug, Hash)]
pub struct SQLOption {
    pub name: SQLIdent,
    pub value: Value,
}

/// The mathematical model of a [`SQLOption`].
pub struct OptionModel {
    pub name: Seq<char>,
    pub value: Seq<char>,
}

impl OptionModel {
    /// `<name> = <value>`
    pub open spec fn text(self) -> Seq<char> {
        self.name + " = "@ + self.value
    }
}

impl View for SQLOption {
    type V = OptionModel;

    open spec fn view(&self) -> OptionModel {
        OptionModel { name: self.name@, value: self.value@ }
    }
}

impl SQLOption {
    /// The SQL text of the option.
    pub open spec fn text(&self) -> Seq<char> {
        self@.text()
    }

    pub fn to_string(&self) -> (out: String)
        ensures
            out@ == self.text(),
    {
        let mut out = self.name.clone();
        out.append(" = ");
        let value = self.value.to_string();
        out.append(value.as_str());
        out
    }

    /// Structural equality: the same name and the same value.
    pub fn same(&self, other: &SQLOption) -> (r: bool)
        ensures
            r == (self@ == other@),
    {
        str_eq(self.name.as_str(), other.name.as_str()) && self.value == other.value
    }
}

impl Clone for SQLOption {
    fn clone(&self) -> (r: SQLOption)
        ensures
            r@ == self@,
    {
        SQLOption { name: self.name.clone(), value: self.value.clone() }
    }
}

impl PartialEq for SQLOption {
    fn eq(&self, other: &SQLOption) -> (r: bool) {
        self.same(other)
    }
}

impl Eq for SQLOption {
}

impl PartialEqSpecImpl for SQLOption {
    open spec fn obeys_eq_spec() -> bool {
        true
    }

    open spec fn eq_spec(&self, other: &SQLOption) -> bool {
        self@ == other@
    }
}

/// The SQL texts of a list of options, in order.
pub open spec fn option_texts(options: Seq<OptionModel>) -> Seq<Seq<char>> {
    options.map_values(|option: OptionModel| option.text())
}

/// ` WITH (<options>)`, or nothing where there are no options.
pub open spec fn with_options_clause(options: Seq<OptionModel>) -> Seq<char> {
    if options.len() > 0 {
        " WITH ("@ + join(option_texts(options), ", "@) + ")"@
    } else {
        Seq::empty()
    }
}

/// Writes the `WITH (...)` clause of a list of options.
pub fn with_options_string(options: &Vec<SQLOption>) -> (out: String)
    ensures
        out@ == with_options_clause(models(options@)),
{
    if options.len() > 0 {
        let mut texts: Vec<String> = Vec::new();
        let mut i: usize = 0;
        while i < options.len()
            invariant
                i <= options.len(),
                texts.len() == i,
                forall|j: int| 0 <= j < i ==> texts@[j]@ == options@[j]@.text(),
            decreases options.len() - i,
        {
            texts.push(options[i].to_string());
            i += 1;
        }
        assert(views(texts@) =~= option_texts(models(options@)));
        let mut out = String::from_str(" WITH (");
        let joined = comma_separated_string(&texts);
        out.append(joined.as_str());
        out.append(")");
        out
    } else {
        String::new()
    }
}

/// An assignment of an `UPDATE` statement.
#[derive(Debug, Hash)]
pub struct SQLAssignment {
    pub id: SQLIdent,
    pub value: ASTNode,
}

/// The mathematical model of a [`SQLAssignment`].
pub struct AssignmentModel {
    pub id: Seq<char>,
    pub value: ExprModel,
}

impl AssignmentModel {
    /// Whether the assignment has a SQL text: its value has one.
    pub open spec fn renderable(self) -> bool {
        self.value.renderable()
    }

    /// `SET <id> = <value>`
    pub open spec fn text(self) -> Seq<char> {
        "SET "@ + self.id + " = "@ + self.value.text()
    }

    /// Whether the assignment is well formed: its value is.
    pub open spec fn well_formed(self) -> bool {
        self.value.well_formed()
    }
}

impl View for SQLAssignment {
    type V = AssignmentModel;

    open spec fn view(&self) -> AssignmentModel {
        AssignmentModel { id: self.id@, value: self.value@ }
    }
}

impl SQLAssignment {
    /// The SQL text of the assignment.
    pub open spec fn text(&self) -> Seq<char> {
        self@.text()
    }

    /// Whether [`SQLAssignment::to_string`] may be called.
    pub fn is_renderable(&self) -> (r: bool)
        ensures
            r == self@.renderable(),
    {
        self.value.is_renderable()
    }

    pub fn to_string(&self) -> (out: String)
        requires
            self@.renderable(),
        ensures
            out@ == self.text(),
    {
        let mut out = String::from_str("SET ");
        out.append(self.id.as_str());
        out.append(" = ");
        let value = self.value.to_string();
        out.append(value.as_str());
        out
    }

    /// Structural equality: the same column and an equal value.
    pub fn same(&self, other: &SQLAssignment) -> (r: bool)
        ensures
            r == (self@ == other@),
    {
        str_eq(self.id.as_str(), other.id.as_str()) && self.value.same(&other.value)
    }

    /// Whether the assignment is well formed.
    pub fn is_well_formed(&self) -> (r: bool)
        ensures
            r == self@.well_formed(),
    {
        self.value.is_well_formed()
    }
}

impl Clone for SQLAssignment {
    fn clone(&self) -> (r: SQLAssignment)
        ensures
            r@ == self@,
    {
        SQLAssignment { id: self.id.clone(), value: self.value.clone() }
    }
}

impl PartialEq for SQLAssignment {
    fn eq(&self, other: &SQLAssignment) -> (r: bool) {
        self.same(other)
    }
}

impl Eq for SQLAssignment {
}

impl PartialEqSpecImpl for SQLAssignment {
    open spec fn obeys_eq_spec() -> bool {
        true
    }

    open spec fn eq_spec(&self, other: &SQLAssignment) -> bool {
        self@ == other@
    }
}

/// A column of a `CREATE TABLE` statement.
#[derive(Debug, Hash)]
pub struct SQLColumnDef {
    pub name: SQLIdent,
    pub data_type: SQLType,
    pub is_primary: bool,
    pub is_unique: bool,
    pub default: Option<ASTNode>,
    pub allow_null: bool,
}

/// The mathematical model of a [`SQLColumnDef`].
pub struct ColumnDefModel {
    pub name: Seq<char>,
    pub data_type: TypeModel,
    pub is_primary: bool,
    pub is_unique: bool,
    pub default: Option<ExprModel>,
    pub allow_null: bool,
}

impl ColumnDefModel {
    /// Whether the definition has a SQL text: its type has one, and so has
    /// its default where it is present.
    pub open spec fn renderable(self) -> bool {
        self.data_type.renderable() && optional_renderable(self.default)
    }

    /// `<name> <type>[ PRIMARY KEY][ UNIQUE][ DEFAULT <expr>][ NOT NULL]`.
    /// `NOT NULL` is written where nulls are not allowed.
    pub open spec fn text(self) -> Seq<char> {
        self.name + " "@ + self.data_type.text() + if_set(self.is_primary, " PRIMARY KEY"@)
            + if_set(self.is_unique, " UNIQUE"@) + optional_clause(
            " DEFAULT "@,
            optional_text(self.default),
        ) + if_set(!self.allow_null, " NOT NULL"@)
    }

    /// Whether the definition is well formed: its type is, and so is its
    /// default where it is present.
    pub open spec fn well_formed(self) -> bool {
        self.data_type.well_formed() && optional_well_formed(self.default)
    }
}

impl View for SQLColumnDef {
    type V = ColumnDefModel;

    open spec fn view(&self) -> ColumnDefModel {
        ColumnDefModel {
            name: self.name@,
            data_type: self.data_type@,
            is_primary: self.is_primary,
            is_unique: self.is_unique,
            default: optional_model(self.default),
            allow_null: self.allow_null,
        }
    }
}

impl SQLColumnDef {
    /// The SQL text of the definition.
    pub open spec fn text(&self) -> Seq<char> {
        self@.text()
    }

    /// Whether [`SQLColumnDef::to_string`] may be called.
    pub fn is_renderable(&self) -> (r: bool)
        ensures
            r == self@.renderable(),
    {
        self.data_type.is_renderable() && optional_is_renderable(&self.default)
    }

    pub fn to_string(&self) -> (out: String)
        requires
            self@.renderable(),
        ensures
            out@ == self.text(),
    {
        let mut out = self.name.clone();
        out.append(" ");
        let data_type = self.data_type.to_string();
        out.append(data_type.as_str());
        append_if(&mut out, self.is_primary, " PRIMARY KEY");
        append_if(&mut out, self.is_unique, " UNIQUE");
        let default = optional_string(&self.default);
        append_optional(&mut out, " DEFAULT ", &default);
        append_if(&mut out, !self.allow_null, " NOT NULL");
        out
    }

    /// Structural equality: every field equal, the flags included.
    pub fn same(&self, other: &SQLColumnDef) -> (r: bool)
        ensures
            r == (self@ == other@),
    {
        str_eq(self.name.as_str(), other.name.as_str()) && self.data_type.same(&other.data_type)
            && self.is_primary == other.is_primary && self.is_unique == other.is_unique
            && optional_same(&self.default, &other.default) && self.allow_null
            == other.allow_null
    }

    /// Whether the definition is well formed.
    pub fn is_well_formed(&self) -> (r: bool)
        ensures
            r == self@.well_formed(),
    {
        self.data_type.is_well_formed() && optional_is_well_formed(&self.default)
    }
}

impl Clone for SQLColumnDef {
    fn clone(&self) -> (r: SQLColumnDef)
        ensures
            r@ == self@,
    {
        SQLColumnDef {
            name: self.name.clone(),
            data_type: self.data_type.clone(),
            is_primary: self.is_primary,
            is_unique: self.is_unique,
            default: optional_clone(&self.default),
            allow_null: self.allow_null,
        }
    }
}

impl PartialEq for SQLColumnDef {
    fn eq(&self, other: &SQLColumnDef) -> (r: bool) {
        self.same(other)
    }
}

impl Eq for SQLColumnDef {
}

impl PartialEqSpecImpl for SQLColumnDef {
    open spec fn obeys_eq_spec() -> bool {
        true
    }

    open spec fn eq_spec(&self, other: &SQLColumnDef) -> bool {
        self@ == other@
    }
}

/// Where the schema of a data source comes from.
#[derive(Debug, Hash)]
pub enum DataSourceSchema {
    /// The schema is given directly in the contained string.
    Raw(String),
    /// The schema is kept in a schema registry at the given URL.
    Registry(String),
}

/// The mathematical model of a [`DataSourceSchema`].
pub enum SchemaModel {
    Raw(Seq<char>),
    Registry(Seq<char>),
}

impl SchemaModel {
    /// What follows `USING SCHEMA`: the schema as a string literal, or
    /// `REGISTRY` and the URL as a string literal.
    pub open spec fn text(self) -> Seq<char> {
        match self {
            SchemaModel::Raw(schema) => single_quoted(schema),
            SchemaModel::Registry(url) => "REGISTRY "@ + single_quoted(url),
        }
    }
}

impl View for DataSourceSchema {
    type V = SchemaModel;

    open spec fn view(&self) -> SchemaModel {
        match self {
            DataSourceSchema::Raw(schema) => SchemaModel::Raw(schema@),
            DataSourceSchema::Registry(url) => SchemaModel::Registry(url@),
        }
    }
}

impl DataSourceSchema {
    /// The SQL text of the schema.
    pub open spec fn text(&self) -> Seq<char> {
        self@.text()
    }

    pub fn to_string(&self) -> (out: String)
        ensures
            out@ == self.text(),
    {
        match self {
            DataSourceSchema::Raw(schema) => quote_string(schema.as_str()),
            DataSourceSchema::Registry(url) => {
                let mut out = String::from_str("REGISTRY ");
                let url = quote_string(url.as_str());
                out.append(url.as_str());
                out
            },
        }
    }

    /// Structural equality: the same variant with the same string.
    pub fn same(&self, other: &DataSourceSchema) -> (r: bool)
        ensures
            r == (self@ == other@),
    {
        match (self, other) {
            (DataSourceSchema::Raw(a), DataSourceSchema::Raw(b)) => str_eq(
                a.as_str(),
                b.as_str(),
            ),
            (DataSourceSchema::Registry(a), DataSourceSchema::Registry(b)) => str_eq(
                a.as_str(),
                b.as_str(),
            ),
            _ => false,
        }
    }
}

impl Clone for DataSourceSchema {
    fn clone(&self) -> (r: DataSourceSchema)
        ensures
            r@ == self@,
    {
        match self {
            DataSourceSchema::Raw(schema) => DataSourceSchema::Raw(schema.clone()),
            DataSourceSchema::Registry(url) => DataSourceSchema::Registry(url.clone()),
        }
    }
}

impl PartialEq for DataSourceSchema {
    fn eq(&self, other: &DataSourceSchema) -> (r: bool) {
        self.same(other)
    }
}

impl Eq for DataSourceSchema {
}

impl PartialEqSpecImpl for DataSourceSchema {
    open spec fn obeys_eq_spec() -> bool {
        true
    }

    open spec fn eq_spec(&self, other: &DataSourceSchema) -> bool {
        self@ == other@
    }
}

/// The file format of an external table.
#[derive(Debug, Clone, Copy, PartialEq, Eq, Structural, Hash)]
pub enum FileFormat {
    TEXTFILE,
    SEQUENCEFILE,
    ORC,
    PARQUET,
    AVRO,
    RCFILE,
    JSONFILE,
}

impl FileFormat {
    /// The keyword that is written for the format. Every format is written
    /// by its own name, except `JSONFILE`, which is written `TEXTFILE`.
    pub open spec fn text(&self) -> Seq<char> {
        match self {
            FileFormat::TEXTFILE => "TEXTFILE"@,
            FileFormat::SEQUENCEFILE => "SEQUENCEFILE"@,
            FileFormat::ORC => "ORC"@,
            FileFormat::PARQUET => "PARQUET"@,
            FileFormat::AVRO => "AVRO"@,
            FileFormat::RCFILE => "RCFILE"@,
            FileFormat::JSONFILE => "TEXTFILE"@,
        }
    }

    /// The format that a keyword names. Keywords are in upper case, and
    /// nothing else is accepted.
    pub open spec fn parse(s: Seq<char>) -> Option<FileFormat> {
        if s == "TEXTFILE"@ {
            Some(FileFormat::TEXTFILE)
        } else if s == "SEQUENCEFILE"@ {
            Some(FileFormat::SEQUENCEFILE)
        } else if s == "ORC"@ {
            Some(FileFormat::ORC)
        } else if s == "PARQUET"@ {
            Some(FileFormat::PARQUET)
        } else if s == "AVRO"@ {
            Some(FileFormat::AVRO)
        } else if s == "RCFILE"@ {
            Some(FileFormat::RCFILE)
        } else if s == "JSONFILE"@ {
            Some(FileFormat::JSONFILE)
        } else {
            None
        }
    }

    /// The message of the error for a text that names no format.
    pub open spec fn parse_error(s: Seq<char>) -> Seq<char> {
        "Unexpected file format: "@ + s
    }

    pub fn to_string(&self) -> (out: String)
        ensures
            out@ == self.text(),
    {
        match self {
            FileFormat::TEXTFILE => String::from_str("TEXTFILE"),
            FileFormat::SEQUENCEFILE => String::from_str("SEQUENCEFILE"),
            FileFormat::ORC => String::from_str("ORC"),
            FileFormat::PARQUET => String::from_str("PARQUET"),
            FileFormat::AVRO => String::from_str("AVRO"),
            FileFormat::RCFILE => String::from_str("RCFILE"),
            FileFormat::JSONFILE => String::from_str("TEXTFILE"),
        }
    }

    /// Reads the keyword of a file format.
    pub fn from_str(s: &str) -> (r: Result<FileFormat, ParserError>)
        ensures
            match Self::parse(s@) {
                Some(format) => r == Ok::<FileFormat, ParserError>(format),
                None => r is Err && r->Err_0@ == Self::parse_error(s@),
            },
    {
        if str_eq(s, "TEXTFILE") {
            Ok(FileFormat::TEXTFILE)
        } else if str_eq(s, "SEQUENCEFILE") {
            Ok(FileFormat::SEQUENCEFILE)
        } else if str_eq(s, "ORC") {
            Ok(FileFormat::ORC)
        } else if str_eq(s, "PARQUET") {
            Ok(FileFormat::PARQUET)
        } else if str_eq(s, "AVRO") {
            Ok(FileFormat::AVRO)
        } else if str_eq(s, "RCFILE") {
            Ok(FileFormat::RCFILE)
        } else if str_eq(s, "JSONFILE") {
            Ok(FileFormat::JSONFILE)
        } else {
            let mut message = String::from_str("Unexpected file format: ");
            message.append(s);
            Err(ParserError::ParserError(message))
        }
    }
}

/// The keywords of the file formats differ from one another.
proof fn lemma_file_format_keywords_differ()
    ensures
        "TEXTFILE"@.len() == 8,
        "SEQUENCEFILE"@.len() == 12,
        "ORC"@.len() == 3,
        "PARQUET"@.len() == 7,
        "AVRO"@.len() == 4,
        "RCFILE"@.len() == 6,
        "JSONFILE"@.len() == 8,
        "TEXTFILE"@[0] == 'T',
        "JSONFILE"@[0] == 'J',
{
    reveal_strlit("TEXTFILE");
    reveal_strlit("SEQUENCEFILE");
    reveal_strlit("ORC");
    reveal_strlit("PARQUET");
    reveal_strlit("AVRO");
    reveal_strlit("RCFILE");
    reveal_strlit("JSONFILE");
}

/// Reading the keyword that was written for a format gives a format that
/// is written in the same way; it gives the format itself, unless that is
/// `JSONFILE`, whose keyword is read as `TEXTFILE`.
pub proof fn lemma_file_format_round_trip(format: FileFormat)
    ensures
        FileFormat::parse(format.text()) is Some,
        FileFormat::parse(format.text())->0.text() == format.text(),
        format != FileFormat::JSONFILE ==> FileFormat::parse(format.text()) == Some(format),
        format == FileFormat::JSONFILE ==> FileFormat::parse(format.text()) == Some(
            FileFormat::TEXTFILE,
        ),
{
    lemma_file_format_keywords_differ();
}

/// Writing the format that was read from a keyword gives the keyword back,
/// unless the keyword is `JSONFILE`, which is written back as `TEXTFILE`.
pub proof fn lemma_file_format_parse_exact(s: Seq<char>)
    ensures
        match FileFormat::parse(s) {
            Some(format) => if s == "JSONFILE"@ {
                format.text() == "TEXTFILE"@
            } else {
                format.text() == s
            },
            None => true,
        },
{
    lemma_file_format_keywords_differ();
}

/// What a `DROP` statement removes, and how.
#[derive(Debug, Hash)]
pub struct SQLDrop {
    pub if_exists: bool,
    pub names: Vec<SQLObjectName>,
    pub cascade: bool,
    pub restrict: bool,
}

/// The mathematical model of a [`SQLDrop`].
pub struct DropModel {
    pub if_exists: bool,
    pub names: Seq<Seq<Seq<char>>>,
    pub cascade: bool,
    pub restrict: bool,
}

/// The SQL texts of a list of names, in order.
pub open spec fn name_texts(names: Seq<Seq<Seq<char>>>) -> Seq<Seq<char>> {
    names.map_values(|name: Seq<Seq<char>>| dotted(name))
}

impl DropModel {
    /// `DROP <object type>[ IF EXISTS] <names>[ CASCADE][ RESTRICT]`, the
    /// names separated by commas. `CASCADE` and `RESTRICT` are independent
    /// of each other; where both are set, both are written, in this order.
    pub open spec fn text(self, object_type: Seq<char>) -> Seq<char> {
        "DROP "@ + object_type + if_set(self.if_exists, " IF EXISTS"@) + " "@ + join(
            name_texts(self.names),
            ", "@,
        ) + if_set(self.cascade, " CASCADE"@) + if_set(self.restrict, " RESTRICT"@)
    }

    /// A drop clause names at least one object, and each name has at least
    /// one part.
    pub open spec fn well_formed(self) -> bool {
        &&& self.names.len() > 0
        &&& forall|i: int| 0 <= i < self.names.len() ==> (#[trigger] self.names[i]).len() > 0
    }
}

impl View for SQLDrop {
    type V = DropModel;

    open spec fn view(&self) -> DropModel {
        DropModel {
            if_exists: self.if_exists,
            names: models(self.names@),
            cascade: self.cascade,
            restrict: self.restrict,
        }
    }
}

/// Writes each name of a list.
pub fn name_strings(names: &Vec<SQLObjectName>) -> (out: Vec<String>)
    ensures
        views(out@) == name_texts(models(names@)),
{
    let mut out: Vec<String> = Vec::new();
    let mut i: usize = 0;
    while i < names.len()
        invariant
            i <= names.len(),
            out.len() == i,
            forall|j: int| 0 <= j < i ==> out@[j]@ == names@[j].text(),
        decreases names.len() - i,
    {
        out.push(names[i].to_string());
        i += 1;
    }
    assert(views(out@) =~= name_texts(models(names@)));
    out
}

impl SQLDrop {
    /// The SQL text of the statement that drops objects of the given type.
    pub open spec fn text(&self, object_type: Seq<char>) -> Seq<char> {
        self@.text(object_type)
    }

    /// Writes the statement that drops objects of the given type (`TABLE`,
    /// `VIEW`, `DATA SOURCE`).
    pub fn to_string_internal(&self, object_type: &str) -> (out: String)
        ensures
            out@ == self.text(object_type@),
    {
        let mut out = String::from_str("DROP ");
        out.append(object_type);
        append_if(&mut out, self.if_exists, " IF EXISTS");
        out.append(" ");
        let names = name_strings(&self.names);
        let joined = comma_separated_string(&names);
        out.append(joined.as_str());
        append_if(&mut out, self.cascade, " CASCADE");
        append_if(&mut out, self.restrict, " RESTRICT");
        out
    }

    /// Whether the clause is well formed.
    pub fn is_well_formed(&self) -> (r: bool)
        ensures
            r == self@.well_formed(),
    {
        if self.names.len() == 0 {
            return false;
        }
        let mut i: usize = 0;
        while i < self.names.len()
            invariant
                i <= self.names.len(),
                forall|j: int| 0 <= j < i ==> (#[trigger] self@.names[j]).len() > 0,
            decreases self.names.len() - i,
        {
            if !self.names[i].is_well_formed() {
                assert(!(self@.names[i as int].len() > 0));
                return false;
            }
            i += 1;
        }
        true
    }

    /// Structural equality: the same names and the same flags.
    pub fn same(&self, other: &SQLDrop) -> (r: bool)
        ensures
            r == (self@ == other@),
    {
        self.if_exists == other.if_exists && lists_equal(&self.names, &other.names)
            && self.cascade == other.cascade && self.restrict == other.restrict
    }
}

impl Clone for SQLDrop {
    fn clone(&self) -> (r: SQLDrop)
        ensures
            r@ == self@,
    {
        SQLDrop {
            if_exists: self.if_exists,
            names: clone_list(&self.names),
            cascade: self.cascade,
            restrict: self.restrict,
        }
    }
}

impl PartialEq for SQLDrop {
    fn eq(&self, other: &SQLDrop) -> (r: bool) {
        self.same(other)
    }
}

impl Eq for SQLDrop {
}

impl PartialEqSpecImpl for SQLDrop {
    open spec fn obeys_eq_spec() -> bool {
        true
    }

    open spec fn eq_spec(&self, other: &SQLDrop) -> bool {
        self@ == other@
    }
}

/// A file format and the schema of a data source are never written as the
/// empty text.
pub proof fn lemma_clause_texts_nonempty(format: FileFormat, schema: SchemaModel)
    ensures
        format.text().len() > 0,
        schema.text().len() > 0,
{
    lemma_file_format_keywords_differ();
}

/// A well-formed assignment is renderable.
pub proof fn lemma_assignment_well_formed_renderable(assignment: AssignmentModel)
    requires
        assignment.well_formed(),
    ensures
        assignment.renderable(),
{
    crate::expr::lemma_expr_well_formed_renderable(assignment.value);
}

/// A well-formed column definition is renderable.
pub proof fn lemma_column_def_well_formed_renderable(column: ColumnDefModel)
    requires
        column.well_formed(),
    ensures
        column.renderable(),
{
    crate::sqltype::lemma_type_well_formed_renderable(column.data_type);
    match column.default {
        Some(e) => crate::expr::lemma_expr_well_formed_renderable(e),
        None => {},
    }
}

/// Two options are equal exactly where they agree in name and value.
pub proof fn lemma_option_equal_by_fields(a: SQLOption, b: SQLOption)
    ensures
        a@ == b@ <==> a.name@ == b.name@ && a.value@ == b.value@,
{
}

/// Two assignments are equal exactly where they agree in column and value.
pub proof fn lemma_assignment_equal_by_fields(a: SQLAssignment, b: SQLAssignment)
    ensures
        a@ == b@ <==> a.id@ == b.id@ && a.value@ == b.value@,
{
}

/// Two column definitions are equal exactly where they agree in every
/// field, flags included.
pub proof fn lemma_column_def_equal_by_fields(a: SQLColumnDef, b: SQLColumnDef)
    ensures
        a@ == b@ <==> a.name@ == b.name@ && a.data_type@ == b.data_type@ && a.is_primary
            == b.is_primary && a.is_unique == b.is_unique && optional_model(a.default)
            == optional_model(b.default) && a.allow_null == b.allow_null,
{
}

/// Two drop clauses are equal exactly where they agree in every field,
/// flags included.
pub proof fn lemma_drop_equal_by_fields(a: SQLDrop, b: SQLDrop)
    ensures
        a@ == b@ <==> a.if_exists == b.if_exists && models(a.names@) == models(b.names@)
            && a.cascade == b.cascade && a.restrict == b.restrict,
{
}

/// Two schemas are equal exactly where they are the same variant with the
/// same string.
pub proof fn lemma_schema_equal_by_fields(a: DataSourceSchema, b: DataSourceSchema)
    ensures
        a@ == b@ <==> match (a, b) {
            (DataSourceSchema::Raw(x), DataSourceSchema::Raw(y)) => x@ == y@,
            (DataSourceSchema::Registry(x), DataSourceSchema::Registry(y)) => x@ == y@,
            _ => false,
        },
{
}

} // verus!
