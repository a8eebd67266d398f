//! The schema assembler: a table name plus an ordered list of user fields,
//! rendered together with the system fields into one `CREATE TABLE` statement.

use vstd::prelude::*;
use vstd::string::StringExecFns;

use crate::field::Field;
use crate::field::FieldOptions;
use crate::field::FieldOptionsView;
use crate::field::FieldType;
use crate::field::FieldView;
use crate::field::Fields;
use crate::field::SystemField;
use crate::field::spec_options_or_default;

verus! {

/// What `str::to_lowercase` returns: the lowercase form of a sequence of
/// characters. The result depends on the characters alone.
pub uninterp spec fn lower_of(s: Seq<char>) -> Seq<char>;

/// What `str::trim` returns: the sequence with leading and trailing
/// whitespace removed. The result depends on the characters alone.
pub uninterp spec fn trim_of(s: Seq<char>) -> Seq<char>;

/// Relies on str::to_lowercase: the result depends on the characters alone.
#[verifier::external_body]
fn lowercase(s: &str) -> (r: String)
    ensures
        r@ == lower_of(s@),
{
    s.to_lowercase()
}

/// Relies on str::trim: the result depends on the characters alone.
#[verifier::external_body]
fn trimmed(s: &str) -> (r: &str)
    ensures
        r@ == trim_of(s@),
{
    s.trim()
}

/// The form in which field names are compared against the reserved system
/// names: lowercased, then trimmed of surrounding whitespace.
pub open spec fn spec_normalized(s: Seq<char>) -> Seq<char> {
    trim_of(lower_of(s))
}

/// Whether a field name collides with one of the three reserved system-field
/// names, compared case-insensitively after trimming whitespace.
pub open spec fn is_reserved_name(name: Seq<char>) -> bool {
    ||| spec_normalized(name) == spec_normalized("id"@)
    ||| spec_normalized(name) == spec_normalized("inserted_at"@)
    ||| spec_normalized(name) == spec_normalized("updated_at"@)
}

fn normalized(s: &str) -> (r: String)
    ensures
        r@ == spec_normalized(s@),
{
    let lowered = lowercase(s);
    let t = trimmed(lowered.as_str());
    t.to_owned()
}

/// The mathematical value of a [`Schema`]: the table name and the ordered
/// user fields, each as its own view.
pub ghost struct SchemaView {
    pub table_name: Seq<char>,
    pub fields: Seq<FieldView>,
}

impl SchemaView {
    /// The reserved-name invariant: the three system-field names are
    /// permanently reserved, so no stored field bears one of them (in any
    /// case or whitespace variant). [`Schema::new`] establishes this and
    /// [`Schema::add_field`] preserves it.
    pub open spec fn wf(self) -> bool {
        forall|i: int|
            0 <= i < self.fields.len() ==> !is_reserved_name(#[trigger] self.fields[i].name)
    }
}

/// The in-memory description of one table: its name plus its ordered
/// user-defined fields. System fields are not stored; they are generated
/// during rendering, and their names are permanently reserved:
/// [`Schema::add_field`] silently drops a field named like one of them, so
/// `fields` never holds such a field.
pub struct Schema {
    pub table_name: String,
    pub fields: Fields,
}

impl View for Schema {
    type V = SchemaView;

    open spec fn view(&self) -> SchemaView {
        SchemaView { table_name: self.table_name@, fields: self.fields.deep_view() }
    }
}

impl Schema {
    /// Create a schema with an empty table name and no fields.
    pub fn new() -> (r: Schema)
        ensures
            r@ == (SchemaView { table_name: Seq::empty(), fields: Seq::empty() }),
            r@.wf(),
    {
        let r = Schema { table_name: "".to_owned(), fields: vec![] };
        proof {
            reveal_strlit("");
            assert(r@.table_name =~= Seq::<char>::empty());
            assert(r@.fields =~= Seq::<FieldView>::empty());
        }
        r
    }

    /// Add a field to the schema. A name that collides with a system-field
    /// name (case-insensitively, after trimming whitespace) is silently
    /// dropped: the schema is left unchanged and no error is raised.
    /// Otherwise the field is appended, preserving insertion order.
    pub fn add_field(&mut self, name: &str, type_: FieldType, options: Option<FieldOptions>)
        ensures
            is_reserved_name(name@) ==> final(self)@ == old(self)@,
            !is_reserved_name(name@) ==> final(self)@ == (SchemaView {
                table_name: old(self)@.table_name,
                fields: old(self)@.fields.push(FieldView {
                    name: name@,
                    type_: type_,
                    options: spec_options_or_default(options.deep_view()),
                }),
            }),
            old(self)@.wf() ==> final(self)@.wf(),
    {
        let normalized_name = normalized(name);
        let system_names = SystemField::names();
        let ghost reserved: Seq<Seq<char>> = seq!["id"@, "inserted_at"@, "updated_at"@];
        proof {
            assert(system_names.deep_view().len() == system_names@.len());
            assert(system_names@.len() == 3);
        }
        let mut i: usize = 0;
        while i < system_names.len()
            invariant
                system_names.deep_view() == reserved,
                reserved == seq!["id"@, "inserted_at"@, "updated_at"@],
                system_names@.len() == 3,
                i <= 3,
                normalized_name@ == spec_normalized(name@),
                forall|j: int|
                    0 <= j < i ==> spec_normalized(name@) != spec_normalized(#[trigger] reserved[j]),
            decreases 3 - i,
        {
            proof {
                assert(system_names@[i as int]@ == system_names.deep_view()[i as int]);
            }
            let system_normalized = normalized(system_names[i].as_str());
            if system_normalized == normalized_name {
                proof {
                    assert(spec_normalized(name@) == spec_normalized(reserved[i as int]));
                    assert(is_reserved_name(name@));
                }
                return ;
            }
            i = i + 1;
        }

        proof {
            assert(spec_normalized(name@) != spec_normalized(reserved[0]));
            assert(spec_normalized(name@) != spec_normalized(reserved[1]));
            assert(spec_normalized(name@) != spec_normalized(reserved[2]));
            assert(!is_reserved_name(name@));
        }

        let ghost prev = self.fields.deep_view();
        let ghost given_options = options.deep_view();
        self.fields.push(Field::new(name, type_, options));
        proof {
            assert(self.fields.deep_view() =~= prev.push(FieldView {
                name: name@,
                type_: type_,
                options: spec_options_or_default(given_options),
            }));
        }
    }
}

/// The fragment every rendering starts its column list with: the three
/// system fields in their fixed order, each followed by `", "`.
pub open spec fn spec_system_fields_sql() -> Seq<char> {
    SystemField::Id.spec_to_sql() + ", "@ + SystemField::InsertedAt.spec_to_sql() + ", "@
        + SystemField::UpdatedAt.spec_to_sql() + ", "@
}

/// The user fields' column definitions, in insertion order, separated by
/// `", "` with no trailing separator.
pub open spec fn spec_user_fields_sql(fields: Seq<FieldView>) -> Seq<char>
    decreases fields.len(),
{
    if fields.len() == 0 {
        Seq::empty()
    } else if fields.len() == 1 {
        fields[0].spec_to_sql()
    } else {
        spec_user_fields_sql(fields.drop_last()) + ", "@ + fields.last().spec_to_sql()
    }
}

/// Whether options, given on their own, mark a field unique.
pub open spec fn spec_options_unique(options: Option<FieldOptionsView>) -> bool {
    match options {
        Some(o) => o.unique,
        None => false,
    }
}

/// Whether a field's options mark it unique.
pub open spec fn spec_is_unique(f: FieldView) -> bool {
    spec_options_unique(f.options)
}

/// The table-level unique-constraint clause derived from one unique field.
pub open spec fn spec_constraint_sql(table_name: Seq<char>, field_name: Seq<char>) -> Seq<char> {
    "CONSTRAINT "@ + table_name + "_"@ + field_name + "_key UNIQUE ("@ + field_name + ")"@
}

/// The constraint clauses of the unique fields, one per field, in the same
/// relative order as the fields were added.
pub open spec fn spec_constraint_list(table_name: Seq<char>, fields: Seq<FieldView>) -> Seq<
    Seq<char>,
>
    decreases fields.len(),
{
    if fields.len() == 0 {
        Seq::empty()
    } else {
        spec_constraint_list(table_name, fields.drop_last()) + (if spec_is_unique(fields.last()) {
            seq![spec_constraint_sql(table_name, fields.last().name)]
        } else {
            Seq::empty()
        })
    }
}

/// A list of fragments joined with `", "` between them.
pub open spec fn spec_join_comma(parts: Seq<Seq<char>>) -> Seq<char>
    decreases parts.len(),
{
    if parts.len() == 0 {
        Seq::empty()
    } else if parts.len() == 1 {
        parts[0]
    } else {
        spec_join_comma(parts.drop_last()) + ", "@ + parts.last()
    }
}

/// The constraints section of the statement: empty where no field is
/// unique, else `", "` followed by the joined constraint clauses.
pub open spec fn spec_constraints_sql(table_name: Seq<char>, fields: Seq<FieldView>) -> Seq<char> {
    let clauses = spec_constraint_list(table_name, fields);
    if clauses.len() == 0 {
        Seq::empty()
    } else {
        ", "@ + spec_join_comma(clauses)
    }
}

/// The whole `CREATE TABLE` statement a schema renders to: the table name,
/// the system fields, the user fields, and the derived unique constraints.
pub open spec fn spec_schema_sql(s: SchemaView) -> Seq<char> {
    "CREATE TABLE "@ + s.table_name + " ("@ + spec_system_fields_sql() + spec_user_fields_sql(
        s.fields,
    ) + spec_constraints_sql(s.table_name, s.fields) + ");"@
}

/// The state of the column list after the first `i` of the user fields have
/// been emitted: the separator trails the last emitted field unless that
/// field is the final one.
spec fn spec_user_prefix(fields: Seq<FieldView>, i: int) -> Seq<char> {
    if i == fields.len() {
        spec_user_fields_sql(fields)
    } else if i == 0 {
        Seq::empty()
    } else {
        spec_user_fields_sql(fields.take(i)) + ", "@
    }
}

/// The running fragment after some prefix of the system fields has been
/// emitted, each followed by its separator.
spec fn spec_system_prefix(fields: Seq<SystemField>) -> Seq<char>
    decreases fields.len(),
{
    if fields.len() == 0 {
        Seq::empty()
    } else {
        spec_system_prefix(fields.drop_last()) + fields.last().spec_to_sql() + ", "@
    }
}

fn join_comma(parts: &Vec<String>) -> (r: String)
    ensures
        r@ == spec_join_comma(parts.deep_view()),
{
    let mut sql = String::new();
    let mut i: usize = 0;
    proof {
        assert(parts.deep_view().take(0) =~= Seq::<Seq<char>>::empty());
        assert(parts.deep_view().len() == parts@.len());
    }
    while i < parts.len()
        invariant
            i <= parts@.len(),
            parts.deep_view().len() == parts@.len(),
            sql@ == spec_join_comma(parts.deep_view().take(i as int)),
        decreases parts@.len() - i,
    {
        if i > 0 {
            sql.append(", ");
        }
        sql.append(parts[i].as_str());
        proof {
            let dv = parts.deep_view();
            assert(dv.take(i as int + 1).drop_last() =~= dv.take(i as int));
            assert(dv.take(i as int + 1).last() == dv[i as int]);
            assert(parts@[i as int]@ == dv[i as int]);
            assert(sql@ =~= spec_join_comma(dv.take(i as int + 1)));
        }
        i = i + 1;
    }
    proof {
        assert(parts.deep_view().take(parts@.len() as int) =~= parts.deep_view());
    }
    sql
}

impl Schema {
    /// Render the schema to its `CREATE TABLE` statement: the table name,
    /// then the three system fields, the user fields in insertion order, and
    /// one unique constraint per field marked unique.
    pub fn to_sql(&self) -> (r: String)
        ensures
            r@ == spec_schema_sql(self@),
    {
        let mut sql = "CREATE TABLE ".to_owned();
        sql.append(self.table_name.as_str());
        sql.append(" (");
        let system_sql = Self::system_fields_sql();
        sql.append(system_sql.as_str());

        let ghost header = "CREATE TABLE "@ + self@.table_name + " ("@
            + spec_system_fields_sql();
        let mut constraints: Vec<String> = Vec::new();
        let mut i: usize = 0;
        proof {
            assert(self@.fields.take(0) =~= Seq::<FieldView>::empty());
            assert(constraints.deep_view() =~= spec_constraint_list(
                self@.table_name,
                self@.fields.take(0),
            ));
            assert(self.fields.deep_view().len() == self.fields@.len());
        }

        while i < self.fields.len()
            invariant
                i <= self.fields@.len(),
                self.fields.deep_view().len() == self.fields@.len(),
                header == "CREATE TABLE "@ + self@.table_name + " ("@ + spec_system_fields_sql(),
                sql@ == header + spec_user_prefix(self@.fields, i as int),
                constraints.deep_view() == spec_constraint_list(
                    self@.table_name,
                    self@.fields.take(i as int),
                ),
            decreases self.fields@.len() - i,
        {
            proof {
                assert(self.fields.deep_view()[i as int] == self.fields@[i as int]@);
            }
            let ghost fv = self@.fields[i as int];
            let field_sql = self.fields[i].to_sql();
            sql.append(field_sql.as_str());

            let field_options = self.fields[i].options.clone();
            proof {
                assert(field_options.deep_view() == fv.options);
            }
            let ghost prev_constraints = constraints.deep_view();
            if let Some(constraint_sql) = self.unique_constraints_sql(
                &self.fields[i],
                field_options,
            ) {
                constraints.push(constraint_sql);
            }
            proof {
                let fields = self@.fields;
                assert(fields.take(i as int + 1).drop_last() =~= fields.take(i as int));
                assert(fields.take(i as int + 1).last() == fv);
                if spec_is_unique(fv) {
                    assert(constraints.deep_view() =~= prev_constraints + seq![
                        spec_constraint_sql(self@.table_name, fv.name),
                    ]);
                } else {
                    assert(constraints.deep_view() =~= prev_constraints + Seq::<
                        Seq<char>,
                    >::empty());
                }
                assert(constraints.deep_view() =~= spec_constraint_list(
                    self@.table_name,
                    fields.take(i as int + 1),
                ));
            }

            if i < self.fields.len() - 1 {
                sql.append(", ");
            }
            proof {
                let fields = self@.fields;
                if i as int + 1 < fields.len() {
                    if i == 0 {
                        assert(spec_user_fields_sql(fields.take(1)) =~= fv.spec_to_sql());
                    } else {
                        assert(spec_user_fields_sql(fields.take(i as int + 1))
                            =~= spec_user_fields_sql(fields.take(i as int)) + ", "@
                            + fv.spec_to_sql());
                    }
                    assert(sql@ =~= header + spec_user_prefix(fields, i as int + 1));
                } else {
                    assert(fields.take(i as int + 1) =~= fields);
                    if i == 0 {
                        assert(spec_user_fields_sql(fields) =~= fv.spec_to_sql());
                    } else {
                        assert(spec_user_fields_sql(fields) =~= spec_user_fields_sql(
                            fields.take(i as int),
                        ) + ", "@ + fv.spec_to_sql());
                    }
                    assert(sql@ =~= header + spec_user_prefix(fields, i as int + 1));
                }
            }
            i = i + 1;
        }

        proof {
            assert(self@.fields.take(self@.fields.len() as int) =~= self@.fields);
            assert(constraints.deep_view() == spec_constraint_list(
                self@.table_name,
                self@.fields,
            ));
        }

        if !constraints.is_empty() {
            sql.append(", ");
            let joined = join_comma(&constraints);
            sql.append(joined.as_str());
        } else {
            proof {
                assert(spec_constraint_list(self@.table_name, self@.fields).len() == 0);
            }
        }

        sql.append(");");

        proof {
            assert(sql@ =~= spec_schema_sql(self@));
        }
        sql
    }

    fn system_fields_sql() -> (r: String)
        ensures
            r@ == spec_system_fields_sql(),
    {
        let mut sql = String::new();
        let fields = SystemField::iterator();
        let mut i: usize = 0;
        proof {
            assert(fields@.take(0) =~= Seq::<SystemField>::empty());
        }
        while i < fields.len()
            invariant
                fields@ == seq![SystemField::Id, SystemField::InsertedAt, SystemField::UpdatedAt],
                i <= 3,
                sql@ == spec_system_prefix(fields@.take(i as int)),
            decreases 3 - i,
        {
            let field_sql = fields[i].to_sql();
            sql.append(field_sql.as_str());
            sql.append(", ");
            proof {
                assert(fields@.take(i as int + 1).drop_last() =~= fields@.take(i as int));
                assert(fields@.take(i as int + 1).last() == fields@[i as int]);
                assert(sql@ =~= spec_system_prefix(fields@.take(i as int + 1)));
            }
            i = i + 1;
        }
        proof {
            let all = seq![SystemField::Id, SystemField::InsertedAt, SystemField::UpdatedAt];
            let two = seq![SystemField::Id, SystemField::InsertedAt];
            let one = seq![SystemField::Id];
            assert(fields@.take(3) =~= all);
            assert(all.drop_last() =~= two);
            assert(two.drop_last() =~= one);
            assert(one.drop_last() =~= Seq::<SystemField>::empty());
            assert(spec_system_prefix(Seq::<SystemField>::empty()) =~= Seq::<char>::empty());
            assert(spec_system_prefix(one) =~= SystemField::Id.spec_to_sql() + ", "@);
            assert(spec_system_prefix(two) =~= spec_system_prefix(one)
                + SystemField::InsertedAt.spec_to_sql() + ", "@);
            assert(spec_system_prefix(all) =~= spec_system_prefix(two)
                + SystemField::UpdatedAt.spec_to_sql() + ", "@);
            assert(sql@ =~= spec_system_fields_sql());
        }
        sql
    }

    fn unique_constraints_sql(&self, field: &Field, options: Option<FieldOptions>) -> (r: Option<
        String,
    >)
        ensures
            spec_options_unique(options.deep_view()) ==> (r matches Some(c) && c@
                == spec_constraint_sql(self@.table_name, field@.name)),
            !spec_options_unique(options.deep_view()) ==> r is None,
    {
        if let Some(options) = &options {
            if options.unique {
                let mut sql = "CONSTRAINT ".to_owned();
                sql.append(self.table_name.as_str());
                sql.append("_");
                sql.append(field.name.as_str());
                sql.append("_key UNIQUE (");
                sql.append(field.name.as_str());
                sql.append(")");
                proof {
                    assert(sql@ =~= spec_constraint_sql(self@.table_name, field@.name));
                }
                return Some(sql);
            }
        }

        None
    }
}

impl Default for Schema {
    /// A schema with an empty table name and no fields, the same value
    /// [`Schema::new`] yields.
    fn default() -> (r: Self)
        ensures
            r@ == (SchemaView { table_name: Seq::empty(), fields: Seq::empty() }),
            r@.wf(),
    {
        SchemaBuilder::default().build()
    }
}

/// A chainable facade over [`Schema`]: the same set-name, add-field and
/// build operations in a fluent form, with no additional semantics.
pub struct SchemaBuilder {
    pub schema: Schema,
}

impl SchemaBuilder {
    /// Create a builder holding an empty schema.
    pub fn new() -> (r: SchemaBuilder)
        ensures
            r.schema@ == (SchemaView { table_name: Seq::empty(), fields: Seq::empty() }),
            r.schema@.wf(),
    {
        SchemaBuilder { schema: Schema::new() }
    }

    /// Set the schema's table name.
    pub fn with_table_name(self, table_name: &str) -> (r: Self)
        ensures
            r.schema@ == (SchemaView {
                table_name: table_name@,
                fields: self.schema@.fields,
            }),
    {
        let mut builder = self;
        builder.schema.table_name = table_name.to_owned();
        builder
    }

    /// Add a field to the schema, under the same silent-drop rule as
    /// [`Schema::add_field`].
    pub fn with_field(self, name: &str, type_: FieldType, options: Option<FieldOptions>) -> (r:
        Self)
        ensures
            is_reserved_name(name@) ==> r.schema@ == self.schema@,
            !is_reserved_name(name@) ==> r.schema@ == (SchemaView {
                table_name: self.schema@.table_name,
                fields: self.schema@.fields.push(FieldView {
                    name: name@,
                    type_: type_,
                    options: spec_options_or_default(options.deep_view()),
                }),
            }),
            self.schema@.wf() ==> r.schema@.wf(),
    {
        let mut builder = self;
        builder.schema.add_field(name, type_, options);
        builder
    }

    /// Build the schema.
    pub fn build(self) -> (r: Schema)
        ensures
            r@ == self.schema@,
    {
        self.schema
    }
}

impl Default for SchemaBuilder {
    /// A builder holding an empty schema, the same value
    /// [`SchemaBuilder::new`] yields.
    fn default() -> (r: Self)
        ensures
            r.schema@ == (SchemaView { table_name: Seq::empty(), fields: Seq::empty() }),
            r.schema@.wf(),
    {
        Self::new()
    }
}

/// Rendering is a pure function of the schema's state: two renderings of
/// the same unmodified schema yield identical strings.
pub proof fn lemma_to_sql_idempotent(s: SchemaView, r1: Seq<char>, r2: Seq<char>)
    requires
        r1 == spec_schema_sql(s),
        r2 == spec_schema_sql(s),
    ensures
        r1 == r2,
{
}

} // verus!
