//! The field model: a column's semantic type, its options, and the three
//! system-managed columns, each with its rendering to a SQL fragment.

use vstd::prelude::*;
use vstd::string::StringExecFns;

verus! {

/// The semantic type of a user-defined column. Each variant renders to
/// exactly one fixed SQL type keyword; see [`FieldType::keyword`].
#[derive(Debug, PartialEq, Eq, Structural)]
pub enum FieldType {
    Integer,
    Double,
    Serial,
    Char,
    Text,
    Timestamp,
    Date,
    Time,
    Boolean,
    Json,
    UUID,
}

impl FieldType {
    /// The SQL type keyword this variant renders to.
    pub open spec fn keyword(self) -> Seq<char> {
        match self {
            FieldType::Integer => "BIGINT"@,
            FieldType::Double => "DOUBLE PRECISION"@,
            FieldType::Serial => "BIGSERIAL"@,
            FieldType::Char => "VARCHAR(255)"@,
            FieldType::Text => "TEXT"@,
            FieldType::Timestamp => "TIMESTAMP WITHOUT TIME ZONE"@,
            FieldType::Date => "DATE"@,
            FieldType::Time => "TIME"@,
            FieldType::Boolean => "BOOLEAN"@,
            FieldType::Json => "JSON"@,
            FieldType::UUID => "UUID"@,
        }
    }

    /// Render the type to its SQL keyword.
    pub fn to_string(&self) -> (r: String)
        ensures
            r@ == self.keyword(),
    {
        match self {
            FieldType::Integer => "BIGINT".to_owned(),
            FieldType::Double => "DOUBLE PRECISION".to_owned(),
            FieldType::Serial => "BIGSERIAL".to_owned(),
            FieldType::Char => "VARCHAR(255)".to_owned(),
            FieldType::Text => "TEXT".to_owned(),
            FieldType::Timestamp => "TIMESTAMP WITHOUT TIME ZONE".to_owned(),
            FieldType::Date => "DATE".to_owned(),
            FieldType::Time => "TIME".to_owned(),
            FieldType::Boolean => "BOOLEAN".to_owned(),
            FieldType::Json => "JSON".to_owned(),
            FieldType::UUID => "UUID".to_owned(),
        }
    }
}

/// One of the three columns every table receives automatically. Each has a
/// fixed name and a fixed, non-configurable SQL fragment.
#[derive(Debug, PartialEq, Eq, Structural)]
pub enum SystemField {
    Id,
    InsertedAt,
    UpdatedAt,
}

impl SystemField {
    /// The column name of this system field.
    pub open spec fn spec_name(self) -> Seq<char> {
        match self {
            SystemField::Id => "id"@,
            SystemField::InsertedAt => "inserted_at"@,
            SystemField::UpdatedAt => "updated_at"@,
        }
    }

    /// The fixed column options this system field renders with.
    pub open spec fn spec_options(self) -> Seq<char> {
        match self {
            SystemField::Id => "UUID PRIMARY KEY DEFAULT gen_random_uuid()"@,
            SystemField::InsertedAt => "TIMESTAMP without time zone NOT NULL"@,
            SystemField::UpdatedAt => "TIMESTAMP without time zone NOT NULL"@,
        }
    }

    /// The full column-definition fragment: the name, a space, the options.
    pub open spec fn spec_to_sql(self) -> Seq<char> {
        self.spec_name() + " "@ + self.spec_options()
    }

    /// Render the system field's name.
    pub fn to_string(&self) -> (r: String)
        ensures
            r@ == self.spec_name(),
    {
        match self {
            SystemField::Id => "id".to_owned(),
            SystemField::InsertedAt => "inserted_at".to_owned(),
            SystemField::UpdatedAt => "updated_at".to_owned(),
        }
    }

    /// The system fields in their fixed order: `Id`, `InsertedAt`, `UpdatedAt`.
    pub fn iterator() -> (r: Vec<SystemField>)
        ensures
            r@ == seq![SystemField::Id, SystemField::InsertedAt, SystemField::UpdatedAt],
    {
        let mut fields: Vec<SystemField> = Vec::new();
        fields.push(SystemField::Id);
        fields.push(SystemField::InsertedAt);
        fields.push(SystemField::UpdatedAt);
        proof {
            assert(fields@ =~= seq![
                SystemField::Id,
                SystemField::InsertedAt,
                SystemField::UpdatedAt,
            ]);
        }
        fields
    }

    /// The three system-field names, in iterator order.
    pub fn names() -> (r: Vec<String>)
        ensures
            r.deep_view() == seq!["id"@, "inserted_at"@, "updated_at"@],
    {
        let ghost target: Seq<Seq<char>> = seq!["id"@, "inserted_at"@, "updated_at"@];
        let mut names: Vec<String> = Vec::new();
        let fields = SystemField::iterator();
        let mut i: usize = 0;
        proof {
            assert(names.deep_view() =~= target.take(0));
        }
        while i < fields.len()
            invariant
                fields@ == seq![SystemField::Id, SystemField::InsertedAt, SystemField::UpdatedAt],
                i <= fields@.len(),
                names.deep_view() == target.take(i as int),
                target == seq!["id"@, "inserted_at"@, "updated_at"@],
            decreases fields@.len() - i,
        {
            let ghost prev = names.deep_view();
            let name = fields[i].to_string();
            proof {
                assert(name@ == target[i as int]);
            }
            names.push(name);
            proof {
                assert(names.deep_view() =~= prev.push(name@));
                assert(target.take(i as int + 1) =~= prev.push(name@));
            }
            i = i + 1;
        }
        proof {
            assert(names.deep_view() =~= target);
        }
        names
    }

    fn to_sql_options(&self) -> (r: &'static str)
        ensures
            r@ == self.spec_options(),
    {
        match self {
            SystemField::Id => "UUID PRIMARY KEY DEFAULT gen_random_uuid()",
            SystemField::InsertedAt => "TIMESTAMP without time zone NOT NULL",
            SystemField::UpdatedAt => "TIMESTAMP without time zone NOT NULL",
        }
    }

    /// Render the full column-definition fragment for this system field.
    pub fn to_sql(&self) -> (r: String)
        ensures
            r@ == self.spec_to_sql(),
    {
        let mut sql = self.to_string();
        sql.append(" ");
        sql.append(self.to_sql_options());
        sql
    }
}

/// The mathematical value of a [`FieldOptions`]: the two flags and the
/// optional default literal as a sequence of characters.
pub ghost struct FieldOptionsView {
    pub unique: bool,
    pub not_null: bool,
    pub default: Option<Seq<char>>,
}

/// The per-column constraints of a user-defined field: uniqueness,
/// nullability, and an optional default literal (rendered verbatim, never
/// escaped — supplying a SQL-safe literal is the caller's responsibility).
#[derive(Debug, PartialEq)]
pub struct FieldOptions {
    pub unique: bool,
    pub not_null: bool,
    pub default: Option<String>,
}

impl View for FieldOptions {
    type V = FieldOptionsView;

    open spec fn view(&self) -> FieldOptionsView {
        FieldOptionsView {
            unique: self.unique,
            not_null: self.not_null,
            default: match self.default {
                Some(d) => Some(d@),
                None => None,
            },
        }
    }
}

impl DeepView for FieldOptions {
    type V = FieldOptionsView;

    open spec fn deep_view(&self) -> FieldOptionsView {
        self.view()
    }
}

/// The options every field gets when the caller supplies none:
/// not unique, nullable, no default.
pub open spec fn spec_default_options() -> FieldOptionsView {
    FieldOptionsView { unique: false, not_null: false, default: None }
}

impl FieldOptions {
    /// Create options with the given flags and default literal. No
    /// validation is performed: any text is accepted as a default.
    pub fn new(unique: bool, not_null: bool, default: Option<String>) -> (r: Self)
        ensures
            r@ == (FieldOptionsView {
                unique: unique,
                not_null: not_null,
                default: match default {
                    Some(d) => Some(d@),
                    None => None,
                },
            }),
    {
        Self { unique, not_null, default }
    }
}

impl Default for FieldOptions {
    /// Options with every constraint off: not unique, nullable, no default.
    fn default() -> (r: Self)
        ensures
            r@ == spec_default_options(),
    {
        Self::new(false, false, None)
    }
}

impl Clone for FieldOptions {
    fn clone(&self) -> (r: Self)
        ensures
            r == *self,
    {
        FieldOptions {
            unique: self.unique,
            not_null: self.not_null,
            default: match &self.default {
                Some(d) => Some(d.clone()),
                None => None,
            },
        }
    }
}

/// The mathematical value of a [`Field`]: its name as a sequence of
/// characters, its type, and its options, if any.
pub ghost struct FieldView {
    pub name: Seq<char>,
    pub type_: FieldType,
    pub options: Option<FieldOptionsView>,
}

impl FieldView {
    /// Whether a default literal of this field renders without quotes:
    /// true exactly for the numeric types and for booleans.
    pub open spec fn unquoted_default(self) -> bool {
        ||| self.type_ == FieldType::Integer
        ||| self.type_ == FieldType::Serial
        ||| self.type_ == FieldType::Double
        ||| self.type_ == FieldType::Boolean
    }

    /// Whether the field is marked `NOT NULL`.
    pub open spec fn spec_not_null(self) -> bool {
        match self.options {
            Some(o) => o.not_null,
            None => false,
        }
    }

    /// Whether the field carries a default literal.
    pub open spec fn spec_has_default(self) -> bool {
        match self.options {
            Some(o) => o.default is Some,
            None => false,
        }
    }

    /// The field's default literal, or the empty sequence if it has none.
    pub open spec fn spec_default_value(self) -> Seq<char> {
        match self.options {
            Some(o) => match o.default {
                Some(d) => d,
                None => Seq::empty(),
            },
            None => Seq::empty(),
        }
    }

    /// The `NOT NULL` clause this field renders, possibly empty.
    pub open spec fn spec_not_null_sql(self) -> Seq<char> {
        if self.spec_not_null() {
            " NOT NULL"@
        } else {
            Seq::empty()
        }
    }

    /// The `DEFAULT` clause this field renders, possibly empty. A present
    /// default always renders; it is quoted unless the type is numeric or
    /// boolean, and never escaped.
    pub open spec fn spec_default_sql(self) -> Seq<char> {
        if self.spec_has_default() {
            if self.unquoted_default() {
                " DEFAULT "@ + self.spec_default_value()
            } else {
                " DEFAULT '"@ + self.spec_default_value() + "'"@
            }
        } else {
            Seq::empty()
        }
    }

    /// The full column-definition fragment: name, type keyword, then the
    /// `NOT NULL` and `DEFAULT` clauses.
    pub open spec fn spec_to_sql(self) -> Seq<char> {
        self.name + " "@ + self.type_.keyword() + self.spec_not_null_sql()
            + self.spec_default_sql()
    }
}

/// A user-defined column: a name, a semantic type, and options. A field
/// constructed through [`Field::new`] always holds options (the default ones
/// where the caller supplied none).
pub struct Field {
    pub name: String,
    pub type_: FieldType,
    pub options: Option<FieldOptions>,
}

/// The ordered user fields of a schema.
pub type Fields = Vec<Field>;

impl View for Field {
    type V = FieldView;

    open spec fn view(&self) -> FieldView {
        FieldView { name: self.name@, type_: self.type_, options: self.options.deep_view() }
    }
}

impl DeepView for Field {
    type V = FieldView;

    open spec fn deep_view(&self) -> FieldView {
        self.view()
    }
}

/// The options a new field is built with: the given ones, or the default
/// options where the caller supplied none. The result is always present.
pub open spec fn spec_options_or_default(options: Option<FieldOptionsView>) -> Option<
    FieldOptionsView,
> {
    match options {
        Some(o) => Some(o),
        None => Some(spec_default_options()),
    }
}

impl Field {
    /// Create a field with the given name and type. Where `options` is
    /// absent, the default options are substituted, so the resulting field
    /// always has options present.
    pub fn new(name: &str, type_: FieldType, options: Option<FieldOptions>) -> (r: Self)
        ensures
            r@ == (FieldView {
                name: name@,
                type_: type_,
                options: spec_options_or_default(options.deep_view()),
            }),
    {
        let options = Self::field_options_or_default(options);

        Self { name: name.to_owned(), type_, options }
    }

    fn field_options_or_default(options: Option<FieldOptions>) -> (r: Option<FieldOptions>)
        ensures
            r.deep_view() == spec_options_or_default(options.deep_view()),
    {
        match options {
            Some(options) => Some(options),
            None => Some(FieldOptions::default()),
        }
    }

    /// Render the field to its column-definition fragment.
    pub fn to_sql(&self) -> (r: String)
        ensures
            r@ == self@.spec_to_sql(),
    {
        let mut sql = self.name.clone();
        sql.append(" ");
        let keyword = self.type_.to_string();
        sql.append(keyword.as_str());

        if self.has_options() {
            sql.append(self.not_null_sql());
            let default = self.default_sql();
            sql.append(default.as_str());
        }

        proof {
            assert(sql@ =~= self@.spec_to_sql());
        }
        sql
    }

    fn is_numeric_field(&self) -> (b: bool)
        ensures
            b == (self@.type_ == FieldType::Integer || self@.type_ == FieldType::Serial
                || self@.type_ == FieldType::Double),
    {
        self.type_ == FieldType::Integer || self.type_ == FieldType::Serial || self.type_
            == FieldType::Double
    }

    fn is_boolean_field(&self) -> (b: bool)
        ensures
            b == (self@.type_ == FieldType::Boolean),
    {
        self.type_ == FieldType::Boolean
    }

    fn has_options(&self) -> (b: bool)
        ensures
            b == (self@.options is Some),
    {
        self.options.is_some()
    }

    fn not_null_option(&self) -> (b: bool)
        ensures
            b == self@.spec_not_null(),
    {
        match &self.options {
            Some(options) => options.not_null,
            None => false,
        }
    }

    fn has_default(&self) -> (b: bool)
        ensures
            b == self@.spec_has_default(),
    {
        match &self.options {
            Some(options) => options.default.is_some(),
            None => false,
        }
    }

    fn default_value(&self) -> (r: String)
        ensures
            r@ == self@.spec_default_value(),
    {
        if self.has_default() {
            if let Some(options) = &self.options {
                if let Some(default) = &options.default {
                    return default.clone();
                }
            }
        }

        String::new()
    }

    fn not_null_sql(&self) -> (r: &'static str)
        ensures
            r@ == self@.spec_not_null_sql(),
    {
        if self.not_null_option() {
            return " NOT NULL";
        }

        proof {
            reveal_strlit("");
            assert(""@ =~= Seq::<char>::empty());
        }
        ""
    }

    fn default_sql(&self) -> (r: String)
        ensures
            r@ == self@.spec_default_sql(),
    {
        if self.has_default() {
            if self.is_numeric_field() || self.is_boolean_field() {
                let mut sql = " DEFAULT ".to_owned();
                let value = self.default_value();
                sql.append(value.as_str());
                return sql;
            } else {
                let mut sql = " DEFAULT '".to_owned();
                let value = self.default_value();
                sql.append(value.as_str());
                sql.append("'");
                return sql;
            }
        }

        String::new()
    }
}

/// Normalization of absent options: a field created without options equals,
/// in every observable way, a field created with the default options given
/// explicitly.
pub proof fn lemma_absent_options_normalized(name: Seq<char>, type_: FieldType)
    ensures
        (FieldView { name: name, type_: type_, options: spec_options_or_default(None) })
            == (FieldView {
            name: name,
            type_: type_,
            options: spec_options_or_default(Some(spec_default_options())),
        }),
{
}

/// Default-clause quoting: a present default renders unquoted exactly for
/// the numeric types and booleans, and single-quoted, verbatim and without
/// escaping, for every other type.
pub proof fn lemma_default_quoting(f: FieldView, o: FieldOptionsView, d: Seq<char>)
    requires
        f.options == Some(o),
        o.default == Some(d),
    ensures
        f.unquoted_default() ==> f.spec_default_sql() == " DEFAULT "@ + d,
        !f.unquoted_default() ==> f.spec_default_sql() == " DEFAULT '"@ + d + "'"@,
{
}

} // verus!
