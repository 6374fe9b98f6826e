//! The SQL parser of the `sqlparser` crate, and the way from its syntax
//! tree to the statements that the rules inspect.
//!
//! The parser's types are opaque here. A handful of small functions tell the
//! variants of its enums apart and hand out references to the fields that
//! the rules read. What such a function gives is a function of the node it
//! is given, and has a name: `statement_shape_of`, `alter_table_parts_of`
//! and so on. Nothing more is claimed of these names. Everything else
//! (walking the lists, building the [`StatementNode`]) is ordinary verified
//! code, and the relations `reads_statement`, `reads_operation` and so on
//! say over those names what it builds.
//!
//! The parser panics on two kinds of text that PostgreSQL rejects anyway:
//! `SET AUTHORIZATION` without a scope, on which it unwraps the missing
//! scope, and `CREATE EXTERNAL TABLE` without a location, which it parses
//! but cannot render. Such texts never reach the parser. The text is
//! tokenized first, and a text in which `AUTHORIZATION` directly follows
//! `SET` or a colon, or `TABLE` directly follows `EXTERNAL`, is refused
//! with an error of the library's own.
//!
//! Too deep a nesting of statements, queries or expressions the parser
//! answers with an error, by a depth counter of its own. The tree it builds
//! for a very long type or chain of operators is as deep as the text is
//! long; the stack that this takes is a limit of the machine, as memory is,
//! and no contract here speaks of it.
//!
//! Names, types and expressions are rendered with the parser's own
//! `Display`, through `to_string`. That a string is such a rendering is
//! written with `to_string_from_display_ensures`; of the rendering itself
//! nothing is known here. Rendering is applied only to what the parser has
//! built: `Display` for an identifier panics on a quote style that the
//! tokenizer never gives, and a few other nodes render fields that the
//! parser always fills.

use crate::ast::{
    AlterOperation, ColumnChange, ColumnDefinition, ColumnExpr, ColumnOptionKind, ColumnType,
    Constraint, DataTypeKind, KeyColumn, StatementKind, StatementNode,
};
use sqlparser::ast::{
    AlterColumnOperation, AlterTable, AlterTableOperation, CheckConstraint, ColumnDef,
    ColumnOption, ColumnOptionDef, CreateExtension, CreateIndex, CreateTable, DataType, Expr,
    ForeignKeyConstraint, Ident, IndexColumn, ObjectName, PrimaryKeyConstraint,
    RenameTableNameKind, Statement, TableConstraint, Truncate, TruncateTableTarget,
    UniqueConstraint,
};
use sqlparser::dialect::PostgreSqlDialect;
use sqlparser::keywords::Keyword;
use sqlparser::parser::{Parser, ParserError};
use sqlparser::tokenizer::{Token, Tokenizer, TokenizerError};
use vstd::prelude::*;
use vstd::string::to_string_from_display_ensures;

verus! {

/// `sqlparser::ast::Statement`, as an opaque type.
#[verifier::external_type_specification]
#[verifier::external_body]
pub struct ExStatement(Statement);

/// `sqlparser::parser::ParserError`, as an opaque type.
#[verifier::external_type_specification]
#[verifier::external_body]
pub struct ExParserError(ParserError);

/// `sqlparser::ast::AlterTable`, as an opaque type.
#[verifier::external_type_specification]
#[verifier::external_body]
pub struct ExAlterTable(AlterTable);

/// `sqlparser::ast::AlterTableOperation`, as an opaque type.
#[verifier::external_type_specification]
#[verifier::external_body]
pub struct ExAlterTableOperation(AlterTableOperation);

/// `sqlparser::ast::AlterColumnOperation`, as an opaque type.
#[verifier::external_type_specification]
#[verifier::external_body]
pub struct ExAlterColumnOperation(AlterColumnOperation);

/// `sqlparser::ast::ColumnDef`, as an opaque type.
#[verifier::external_type_specification]
#[verifier::external_body]
pub struct ExColumnDef(ColumnDef);

/// `sqlparser::ast::ColumnOptionDef`, as an opaque type.
#[verifier::external_type_specification]
#[verifier::external_body]
pub struct ExColumnOptionDef(ColumnOptionDef);

/// `sqlparser::ast::DataType`, as an opaque type.
#[verifier::external_type_specification]
#[verifier::external_body]
pub struct ExDataType(DataType);

/// `sqlparser::ast::ObjectName`, as an opaque type.
#[verifier::external_type_specification]
#[verifier::external_body]
pub struct ExObjectName(ObjectName);

/// `sqlparser::ast::Ident`, as an opaque type.
#[verifier::external_type_specification]
#[verifier::external_body]
pub struct ExIdent(Ident);

/// `sqlparser::ast::Expr`, as an opaque type.
#[verifier::external_type_specification]
#[verifier::external_body]
pub struct ExExpr(Expr);

/// `sqlparser::ast::TableConstraint`, as an opaque type.
#[verifier::external_type_specification]
#[verifier::external_body]
pub struct ExTableConstraint(TableConstraint);

/// `sqlparser::ast::UniqueConstraint`, as an opaque type.
#[verifier::external_type_specification]
#[verifier::external_body]
pub struct ExUniqueConstraint(UniqueConstraint);

/// `sqlparser::ast::PrimaryKeyConstraint`, as an opaque type.
#[verifier::external_type_specification]
#[verifier::external_body]
pub struct ExPrimaryKeyConstraint(PrimaryKeyConstraint);

/// `sqlparser::ast::ForeignKeyConstraint`, as an opaque type.
#[verifier::external_type_specification]
#[verifier::external_body]
pub struct ExForeignKeyConstraint(ForeignKeyConstraint);

/// `sqlparser::ast::CheckConstraint`, as an opaque type.
#[verifier::external_type_specification]
#[verifier::external_body]
pub struct ExCheckConstraint(CheckConstraint);

/// `sqlparser::ast::IndexColumn`, as an opaque type.
#[verifier::external_type_specification]
#[verifier::external_body]
pub struct ExIndexColumn(IndexColumn);

/// `sqlparser::ast::CreateIndex`, as an opaque type.
#[verifier::external_type_specification]
#[verifier::external_body]
pub struct ExCreateIndex(CreateIndex);

/// `sqlparser::ast::CreateTable`, as an opaque type.
#[verifier::external_type_specification]
#[verifier::external_body]
pub struct ExCreateTable(CreateTable);

/// `sqlparser::ast::Truncate`, as an opaque type.
#[verifier::external_type_specification]
#[verifier::external_body]
pub struct ExTruncate(Truncate);

/// `sqlparser::ast::TruncateTableTarget`, as an opaque type.
#[verifier::external_type_specification]
#[verifier::external_body]
pub struct ExTruncateTableTarget(TruncateTableTarget);

/// `sqlparser::ast::CreateExtension`, as an opaque type.
#[verifier::external_type_specification]
#[verifier::external_body]
pub struct ExCreateExtension(CreateExtension);

/// `sqlparser::ast::RenameTableNameKind`, as an opaque type.
#[verifier::external_type_specification]
#[verifier::external_body]
pub struct ExRenameTableNameKind(RenameTableNameKind);

/// `sqlparser::tokenizer::Token`, as an opaque type.
#[verifier::external_type_specification]
#[verifier::external_body]
pub struct ExToken(Token);

/// `sqlparser::tokenizer::TokenizerError`, as an opaque type.
#[verifier::external_type_specification]
#[verifier::external_body]
pub struct ExTokenizerError(TokenizerError);

/// What the check before parsing tells apart in a token: four keywords, the
/// colon, and white space, which includes comments.
#[derive(Debug, Clone, Copy, PartialEq, Eq, Structural)]
pub enum TokenClass {
    SetWord,
    Colon,
    AuthorizationWord,
    ExternalWord,
    TableWord,
    Whitespace,
    Other,
}

/// The message of the error for a text that is refused before parsing.
pub const REFUSED_MESSAGE: &'static str =
    "sql parser error: unsupported statement: SET AUTHORIZATION without SESSION, LOCAL or GLOBAL, or CREATE EXTERNAL TABLE";

/// Which statement a parsed statement is, with the part that describes it.
pub enum StatementShape<'a> {
    AlterTable(&'a AlterTable),
    CreateIndex(&'a CreateIndex),
    CreateTable(&'a CreateTable),
    Truncate(&'a Truncate),
    CreateExtension(&'a CreateExtension),
    Other,
}

/// Which operation an `ALTER TABLE` operation is, with its fields.
pub enum OperationShape<'a> {
    AddColumn(&'a ColumnDef),
    AddConstraint(&'a TableConstraint),
    DropColumn(&'a Vec<Ident>, bool),
    DropConstraint(&'a Ident),
    RenameColumn(&'a Ident, &'a Ident),
    RenameTable(&'a RenameTableNameKind),
    AlterColumn(&'a Ident, &'a AlterColumnOperation),
    Other,
}

/// Which change an `ALTER COLUMN` makes, with its fields.
pub enum ColumnChangeShape<'a> {
    SetNotNull,
    SetDataType(&'a DataType, &'a Option<Expr>),
    Other,
}

/// Which constraint a table constraint is, with the part that describes it.
pub enum ConstraintShape<'a> {
    Unique(&'a UniqueConstraint),
    PrimaryKey(&'a PrimaryKeyConstraint),
    ForeignKey(&'a ForeignKeyConstraint),
    Check(&'a CheckConstraint),
    Other,
}

/// Which data type a type is; a custom type comes with its name.
pub enum DataTypeShape<'a> {
    SmallInt,
    Int,
    Integer,
    Int2,
    Int4,
    Json,
    Custom(&'a ObjectName),
    Other,
}

/// Which expression a key column is built on.
pub enum ExprShape<'a> {
    Identifier(&'a Ident),
    CompoundIdentifier(&'a Vec<Ident>),
    Other,
}

/// What `Parser::parse_sql` gives for `sql` under the PostgreSQL dialect:
/// the statements in source order, or the parser's error.
pub uninterp spec fn parse_outcome(sql: Seq<char>) -> Result<Seq<Statement>, ParserError>;

/// Which of the statements that the rules read `stmt` is.
pub uninterp spec fn statement_shape_of(stmt: Statement) -> StatementShape<'static>;

/// The table and the operations of an `ALTER TABLE`.
pub uninterp spec fn alter_table_parts_of(a: AlterTable) -> (ObjectName, Seq<AlterTableOperation>);

/// Which of the operations that the rules read `op` is.
pub uninterp spec fn operation_shape_of(op: AlterTableOperation) -> OperationShape<'static>;

/// The new table name that a rename holds, without the keyword before it.
pub uninterp spec fn rename_target_of(kind: RenameTableNameKind) -> ObjectName;

/// Which of the column changes that the rules read `op` is.
pub uninterp spec fn column_change_shape_of(op: AlterColumnOperation) -> ColumnChangeShape<'static>;

/// The name, the type and the options of a column definition.
pub uninterp spec fn column_def_parts_of(c: ColumnDef) -> (Ident, DataType, Seq<ColumnOptionDef>);

/// Which of the column options that the rules read `def` holds.
pub uninterp spec fn column_option_kind_of(def: ColumnOptionDef) -> ColumnOptionKind;

/// Which of the data types that the rules read `t` is.
pub uninterp spec fn data_type_shape_of(t: DataType) -> DataTypeShape<'static>;

/// Which of the constraints that the rules read `c` is.
pub uninterp spec fn constraint_shape_of(c: TableConstraint) -> ConstraintShape<'static>;

/// The name and the columns of a unique constraint.
pub uninterp spec fn unique_parts_of(u: UniqueConstraint) -> (Option<Ident>, Seq<IndexColumn>);

/// The name and the columns of a primary-key constraint.
pub uninterp spec fn primary_key_parts_of(p: PrimaryKeyConstraint) -> (
    Option<Ident>,
    Seq<IndexColumn>,
);

/// The name, the columns, the table referred to and its columns, of a
/// foreign-key constraint.
pub uninterp spec fn foreign_key_parts_of(f: ForeignKeyConstraint) -> (
    Option<Ident>,
    Seq<Ident>,
    ObjectName,
    Seq<Ident>,
);

/// The name and the expression of a check constraint.
pub uninterp spec fn check_parts_of(c: CheckConstraint) -> (Option<Ident>, Expr);

/// The expression that an index column is built on.
pub uninterp spec fn index_column_expr_of(c: IndexColumn) -> Expr;

/// Which of the expressions that the rules read `e` is.
pub uninterp spec fn expr_shape_of(e: Expr) -> ExprShape<'static>;

/// The name, the table, the two flags and the columns of a `CREATE INDEX`.
pub uninterp spec fn create_index_parts_of(c: CreateIndex) -> (
    Option<ObjectName>,
    ObjectName,
    bool,
    bool,
    Seq<IndexColumn>,
);

/// The name, the columns and the constraints of a `CREATE TABLE`.
pub uninterp spec fn create_table_parts_of(c: CreateTable) -> (
    ObjectName,
    Seq<ColumnDef>,
    Seq<TableConstraint>,
);

/// The tables of a `TRUNCATE`.
pub uninterp spec fn truncate_targets_of(t: Truncate) -> Seq<TruncateTableTarget>;

/// The name and the `IF NOT EXISTS` flag of a `CREATE EXTENSION`.
pub uninterp spec fn create_extension_parts_of(c: CreateExtension) -> (Ident, bool);

/// What `Tokenizer::tokenize` gives for `sql` under the PostgreSQL dialect:
/// the tokens in source order, white space and comments among them, or the
/// tokenizer's error.
pub uninterp spec fn tokens_of(sql: Seq<char>) -> Result<Seq<Token>, TokenizerError>;

/// Which of the classes that the check before parsing tells apart `t` is.
pub uninterp spec fn token_class_of(t: Token) -> TokenClass;

/// The classes of `tokens`, in order.
pub open spec fn classes_of(tokens: Seq<Token>) -> Seq<TokenClass> {
    Seq::new(tokens.len(), |i: int| token_class_of(tokens[i]))
}

/// Whether the token at `j` directly follows the token at `i`: only white
/// space stands between them.
pub open spec fn directly_follows(classes: Seq<TokenClass>, i: int, j: int) -> bool {
    &&& 0 <= i < j < classes.len()
    &&& forall|k: int| i < k < j ==> #[trigger] classes[k] == TokenClass::Whitespace
}

/// The pairs of neighbours that are refused: `AUTHORIZATION` after `SET` or
/// after a colon, and `TABLE` after `EXTERNAL`.
pub open spec fn refused_pair(first: TokenClass, second: TokenClass) -> bool {
    ||| second == TokenClass::AuthorizationWord && (first == TokenClass::SetWord || first
        == TokenClass::Colon)
    ||| second == TokenClass::TableWord && first == TokenClass::ExternalWord
}

/// Whether some token of a refused pair is directly followed by the other.
pub open spec fn refused(classes: Seq<TokenClass>) -> bool {
    exists|i: int, j: int| #[trigger]
        directly_follows(classes, i, j) && refused_pair(classes[i], classes[j])
}

/// Whether `sql` may be handed to the parser: its tokens hold no refused
/// pair. A text that the tokenizer rejects may be handed on; the parser
/// answers it with the tokenizer's error.
pub open spec fn parser_admits(sql: Seq<char>) -> bool {
    match tokens_of(sql) {
        Ok(tokens) => !refused(classes_of(tokens)),
        Err(_) => true,
    }
}

/// Calls `Tokenizer::new` with the PostgreSQL dialect and `tokenize`. The
/// contract claims only that the outcome is a function of the text, which it
/// names [`tokens_of`].
#[verifier::external_body]
fn tokenize(sql: &str) -> (r: Result<Vec<Token>, TokenizerError>)
    ensures
        match r {
            Ok(tokens) => tokens_of(sql@) == Ok::<Seq<Token>, TokenizerError>(tokens@),
            Err(e) => tokens_of(sql@) == Err::<Seq<Token>, TokenizerError>(e),
        },
{
    Tokenizer::new(&PostgreSqlDialect {}, sql).tokenize()
}

/// Tells apart the variants of `Token`, and of `Keyword` in a word, that the
/// check before parsing looks for. The result is named [`token_class_of`].
#[verifier::external_body]
fn token_class(t: &Token) -> (r: TokenClass)
    ensures
        r == token_class_of(*t),
{
    match t {
        Token::Word(w) => match w.keyword {
            Keyword::SET => TokenClass::SetWord,
            Keyword::AUTHORIZATION => TokenClass::AuthorizationWord,
            Keyword::EXTERNAL => TokenClass::ExternalWord,
            Keyword::TABLE => TokenClass::TableWord,
            _ => TokenClass::Other,
        },
        Token::Colon => TokenClass::Colon,
        Token::Whitespace(_) => TokenClass::Whitespace,
        _ => TokenClass::Other,
    }
}

/// Calls `Parser::parse_sql` with the PostgreSQL dialect. The parser
/// tokenizes the text as [`tokenize`] does, and panics where `AUTHORIZATION`
/// directly follows `SET` or a colon; a `CREATE EXTERNAL TABLE` without a
/// location it parses into a statement whose rendering panics. The
/// precondition leaves such texts out. The contract claims only that the
/// outcome is a function of the text, which it names [`parse_outcome`].
#[verifier::external_body]
fn parse_statements(sql: &str) -> (r: Result<Vec<Statement>, ParserError>)
    requires
        parser_admits(sql@),
    ensures
        match r {
            Ok(statements) => parse_outcome(sql@) == Ok::<Seq<Statement>, ParserError>(
                statements@,
            ),
            Err(e) => parse_outcome(sql@) == Err::<Seq<Statement>, ParserError>(e),
        },
{
    Parser::parse_sql(&PostgreSqlDialect {}, sql)
}

/// Tells the variants of `Statement` apart that the rules read. The result
/// is named [`statement_shape_of`].
#[verifier::external_body]
fn statement_shape(stmt: &Statement) -> (r: StatementShape<'_>)
    ensures
        r == statement_shape_of(*stmt),
{
    match stmt {
        Statement::AlterTable(a) => StatementShape::AlterTable(a),
        Statement::CreateIndex(c) => StatementShape::CreateIndex(c),
        Statement::CreateTable(c) => StatementShape::CreateTable(c),
        Statement::Truncate(t) => StatementShape::Truncate(t),
        Statement::CreateExtension(c) => StatementShape::CreateExtension(c),
        _ => StatementShape::Other,
    }
}

/// The fields `name` and `operations` of an `AlterTable`, named
/// [`alter_table_parts_of`].
#[verifier::external_body]
fn alter_table_parts(a: &AlterTable) -> (r: (&ObjectName, &Vec<AlterTableOperation>))
    ensures
        (*r.0, r.1@) == alter_table_parts_of(*a),
{
    (&a.name, &a.operations)
}

/// Tells the variants of `AlterTableOperation` apart that the rules read.
/// The result is named [`operation_shape_of`].
#[verifier::external_body]
fn operation_shape(op: &AlterTableOperation) -> (r: OperationShape<'_>)
    ensures
        r == operation_shape_of(*op),
{
    match op {
        AlterTableOperation::AddColumn { column_def, .. } => OperationShape::AddColumn(column_def),
        AlterTableOperation::AddConstraint { constraint, .. } => OperationShape::AddConstraint(constraint),
        AlterTableOperation::DropColumn { column_names, if_exists, .. } => OperationShape::DropColumn(column_names, *if_exists),
        AlterTableOperation::DropConstraint { name, .. } => OperationShape::DropConstraint(name),
        AlterTableOperation::RenameColumn { old_column_name, new_column_name } => OperationShape::RenameColumn(old_column_name, new_column_name),
        AlterTableOperation::RenameTable { table_name } => OperationShape::RenameTable(table_name),
        AlterTableOperation::AlterColumn { column_name, op } => OperationShape::AlterColumn(column_name, op),
        _ => OperationShape::Other,
    }
}

/// The new table name of a rename, which both variants of
/// `RenameTableNameKind` hold, named [`rename_target_of`].
#[verifier::external_body]
fn rename_target(kind: &RenameTableNameKind) -> (r: &ObjectName)
    ensures
        *r == rename_target_of(*kind),
{
    match kind {
        RenameTableNameKind::As(name) => name,
        RenameTableNameKind::To(name) => name,
    }
}

/// Tells the variants of `AlterColumnOperation` apart that the rules read.
/// The result is named [`column_change_shape_of`].
#[verifier::external_body]
fn column_change_shape(op: &AlterColumnOperation) -> (r: ColumnChangeShape<'_>)
    ensures
        r == column_change_shape_of(*op),
{
    match op {
        AlterColumnOperation::SetNotNull => ColumnChangeShape::SetNotNull,
        AlterColumnOperation::SetDataType { data_type, using, .. } => ColumnChangeShape::SetDataType(data_type, using),
        _ => ColumnChangeShape::Other,
    }
}

/// The fields `name`, `data_type` and `options` of a `ColumnDef`, named
/// [`column_def_parts_of`].
#[verifier::external_body]
fn column_def_parts(c: &ColumnDef) -> (r: (&Ident, &DataType, &Vec<ColumnOptionDef>))
    ensures
        (*r.0, *r.1, r.2@) == column_def_parts_of(*c),
{
    (&c.name, &c.data_type, &c.options)
}

/// Tells the variants of `ColumnOption` apart that the rules read, in the
/// field `option` of a `ColumnOptionDef`. The result is named
/// [`column_option_kind_of`].
#[verifier::external_body]
fn column_option_kind(def: &ColumnOptionDef) -> (r: ColumnOptionKind)
    ensures
        r == column_option_kind_of(*def),
{
    match &def.option {
        ColumnOption::Default(_) => ColumnOptionKind::Default,
        ColumnOption::PrimaryKey(_) => ColumnOptionKind::PrimaryKey,
        _ => ColumnOptionKind::Other,
    }
}

/// Tells the variants of `DataType` apart that the rules read. The result
/// is named [`data_type_shape_of`].
#[verifier::external_body]
fn data_type_shape(t: &DataType) -> (r: DataTypeShape<'_>)
    ensures
        r == data_type_shape_of(*t),
{
    match t {
        DataType::SmallInt(_) => DataTypeShape::SmallInt,
        DataType::Int(_) => DataTypeShape::Int,
        DataType::Integer(_) => DataTypeShape::Integer,
        DataType::Int2(_) => DataTypeShape::Int2,
        DataType::Int4(_) => DataTypeShape::Int4,
        DataType::JSON => DataTypeShape::Json,
        DataType::Custom(name, _) => DataTypeShape::Custom(name),
        _ => DataTypeShape::Other,
    }
}

/// Tells the variants of `TableConstraint` apart that the rules read. The
/// result is named [`constraint_shape_of`].
#[verifier::external_body]
fn constraint_shape(c: &TableConstraint) -> (r: ConstraintShape<'_>)
    ensures
        r == constraint_shape_of(*c),
{
    match c {
        TableConstraint::Unique(u) => ConstraintShape::Unique(u),
        TableConstraint::PrimaryKey(p) => ConstraintShape::PrimaryKey(p),
        TableConstraint::ForeignKey(f) => ConstraintShape::ForeignKey(f),
        TableConstraint::Check(c) => ConstraintShape::Check(c),
        _ => ConstraintShape::Other,
    }
}

/// The fields `name` and `columns` of a `UniqueConstraint`, named
/// [`unique_parts_of`].
#[verifier::external_body]
fn unique_parts(u: &UniqueConstraint) -> (r: (&Option<Ident>, &Vec<IndexColumn>))
    ensures
        (*r.0, r.1@) == unique_parts_of(*u),
{
    (&u.name, &u.columns)
}

/// The fields `name` and `columns` of a `PrimaryKeyConstraint`, named
/// [`primary_key_parts_of`].
#[verifier::external_body]
fn primary_key_parts(p: &PrimaryKeyConstraint) -> (r: (&Option<Ident>, &Vec<IndexColumn>))
    ensures
        (*r.0, r.1@) == primary_key_parts_of(*p),
{
    (&p.name, &p.columns)
}

/// The fields `name`, `columns`, `foreign_table` and `referred_columns` of a
/// `ForeignKeyConstraint`, named [`foreign_key_parts_of`].
#[verifier::external_body]
fn foreign_key_parts(f: &ForeignKeyConstraint) -> (r: (
    &Option<Ident>,
    &Vec<Ident>,
    &ObjectName,
    &Vec<Ident>,
))
    ensures
        (*r.0, r.1@, *r.2, r.3@) == foreign_key_parts_of(*f),
{
    (&f.name, &f.columns, &f.foreign_table, &f.referred_columns)
}

/// The fields `name` and `expr` of a `CheckConstraint`, named
/// [`check_parts_of`].
#[verifier::external_body]
fn check_parts(c: &CheckConstraint) -> (r: (&Option<Ident>, &Expr))
    ensures
        (*r.0, *r.1) == check_parts_of(*c),
{
    (&c.name, &c.expr)
}

/// The expression of an `IndexColumn`: the field `expr` of its field
/// `column`, named [`index_column_expr_of`].
#[verifier::external_body]
fn index_column_expr(c: &IndexColumn) -> (r: &Expr)
    ensures
        *r == index_column_expr_of(*c),
{
    &c.column.expr
}

/// Tells the variants of `Expr` apart that the rules read. The result is
/// named [`expr_shape_of`].
#[verifier::external_body]
fn expr_shape(e: &Expr) -> (r: ExprShape<'_>)
    ensures
        r == expr_shape_of(*e),
{
    match e {
        Expr::Identifier(ident) => ExprShape::Identifier(ident),
        Expr::CompoundIdentifier(idents) => ExprShape::CompoundIdentifier(idents),
        _ => ExprShape::Other,
    }
}

/// The fields `name`, `table_name`, `unique`, `concurrently` and `columns`
/// of a `CreateIndex`, named [`create_index_parts_of`].
#[verifier::external_body]
fn create_index_parts(c: &CreateIndex) -> (r: (
    &Option<ObjectName>,
    &ObjectName,
    bool,
    bool,
    &Vec<IndexColumn>,
))
    ensures
        (*r.0, *r.1, r.2, r.3, r.4@) == create_index_parts_of(*c),
{
    (&c.name, &c.table_name, c.unique, c.concurrently, &c.columns)
}

/// The fields `name`, `columns` and `constraints` of a `CreateTable`, named
/// [`create_table_parts_of`].
#[verifier::external_body]
fn create_table_parts(c: &CreateTable) -> (r: (
    &ObjectName,
    &Vec<ColumnDef>,
    &Vec<TableConstraint>,
))
    ensures
        (*r.0, r.1@, r.2@) == create_table_parts_of(*c),
{
    (&c.name, &c.columns, &c.constraints)
}

/// The field `table_names` of a `Truncate`, named [`truncate_targets_of`].
#[verifier::external_body]
fn truncate_targets(t: &Truncate) -> (r: &Vec<TruncateTableTarget>)
    ensures
        r@ == truncate_targets_of(*t),
{
    &t.table_names
}

/// The fields `name` and `if_not_exists` of a `CreateExtension`, named
/// [`create_extension_parts_of`].
#[verifier::external_body]
fn create_extension_parts(c: &CreateExtension) -> (r: (&Ident, bool))
    ensures
        (*r.0, r.1) == create_extension_parts_of(*c),
{
    (&c.name, c.if_not_exists)
}

/// Whether `texts` are the renderings of `idents`, one for one.
pub open spec fn reads_identifiers(idents: Seq<Ident>, texts: Seq<String>) -> bool {
    &&& texts.len() == idents.len()
    &&& forall|i: int|
        0 <= i < idents.len() ==> to_string_from_display_ensures::<Ident>(
            &idents[i],
            #[trigger] texts[i],
        )
}

/// Whether `text` is the rendering of `ident`, where there is one.
pub open spec fn reads_optional_identifier(ident: Option<Ident>, text: Option<String>) -> bool {
    match ident {
        Some(i) => text matches Some(t) && to_string_from_display_ensures::<Ident>(&i, t),
        None => text is None,
    }
}

/// Whether `r` is what the rules read of the data type `t`: its kind, the
/// rendering of a custom type's name, and its own rendering.
pub open spec fn reads_column_type(t: DataType, r: ColumnType) -> bool {
    &&& to_string_from_display_ensures::<DataType>(&t, r.text)
    &&& match data_type_shape_of(t) {
        DataTypeShape::SmallInt => r.kind is SmallInt,
        DataTypeShape::Int => r.kind is Int,
        DataTypeShape::Integer => r.kind is Integer,
        DataTypeShape::Int2 => r.kind is Int2,
        DataTypeShape::Int4 => r.kind is Int4,
        DataTypeShape::Json => r.kind is Json,
        DataTypeShape::Custom(name) => r.kind matches DataTypeKind::Custom { name: text }
            && to_string_from_display_ensures::<ObjectName>(name, text),
        DataTypeShape::Other => r.kind is Other,
    }
}

/// Whether `r` is what the rules read of the column definition `c`: the
/// rendering of its name, its type, and the kind of each option, in order.
pub open spec fn reads_column(c: ColumnDef, r: ColumnDefinition) -> bool {
    let (name, data_type, options) = column_def_parts_of(c);
    &&& to_string_from_display_ensures::<Ident>(&name, r.name)
    &&& reads_column_type(data_type, r.data_type)
    &&& r.options@.len() == options.len()
    &&& forall|i: int|
        0 <= i < options.len() ==> #[trigger] r.options@[i] == column_option_kind_of(options[i])
}

/// Whether `rs` are what the rules read of the column definitions `cs`.
pub open spec fn reads_columns(cs: Seq<ColumnDef>, rs: Seq<ColumnDefinition>) -> bool {
    &&& rs.len() == cs.len()
    &&& forall|i: int| 0 <= i < cs.len() ==> reads_column(cs[i], #[trigger] rs[i])
}

/// Whether `r` is what the rules read of the index column `c`: its
/// rendering, the rendering of its expression, and the expression's shape.
pub open spec fn reads_key_column(c: IndexColumn, r: KeyColumn) -> bool {
    let e = index_column_expr_of(c);
    &&& to_string_from_display_ensures::<IndexColumn>(&c, r.text)
    &&& to_string_from_display_ensures::<Expr>(&e, r.expr_text)
    &&& match expr_shape_of(e) {
        ExprShape::Identifier(ident) => r.expr matches ColumnExpr::Identifier { name }
            && to_string_from_display_ensures::<Ident>(ident, name),
        ExprShape::CompoundIdentifier(idents) => r.expr matches ColumnExpr::CompoundIdentifier {
            parts,
        } && reads_identifiers(idents@, parts@),
        ExprShape::Other => r.expr is Other,
    }
}

/// Whether `rs` are what the rules read of the index columns `cs`.
pub open spec fn reads_key_columns(cs: Seq<IndexColumn>, rs: Seq<KeyColumn>) -> bool {
    &&& rs.len() == cs.len()
    &&& forall|i: int| 0 <= i < cs.len() ==> reads_key_column(cs[i], #[trigger] rs[i])
}

/// Whether `r` is what the rules read of the table constraint `c`.
pub open spec fn reads_constraint(c: TableConstraint, r: Constraint) -> bool {
    match constraint_shape_of(c) {
        ConstraintShape::Unique(u) => {
            let (name, columns) = unique_parts_of(*u);
            r matches Constraint::Unique { name: read_name, columns: read_columns }
                && reads_optional_identifier(name, read_name) && reads_key_columns(
                columns,
                read_columns@,
            )
        },
        ConstraintShape::PrimaryKey(p) => {
            let (name, columns) = primary_key_parts_of(*p);
            r matches Constraint::PrimaryKey { name: read_name, columns: read_columns }
                && reads_optional_identifier(name, read_name) && reads_key_columns(
                columns,
                read_columns@,
            )
        },
        ConstraintShape::ForeignKey(f) => {
            let (name, columns, foreign_table, referred_columns) = foreign_key_parts_of(*f);
            r matches Constraint::ForeignKey {
                name: read_name,
                columns: read_columns,
                foreign_table: read_table,
                referred_columns: read_referred,
            } && reads_optional_identifier(name, read_name) && reads_identifiers(
                columns,
                read_columns@,
            ) && to_string_from_display_ensures::<ObjectName>(&foreign_table, read_table)
                && reads_identifiers(referred_columns, read_referred@)
        },
        ConstraintShape::Check(k) => {
            let (name, expr) = check_parts_of(*k);
            r matches Constraint::Check { name: read_name, expr: read_expr }
                && reads_optional_identifier(name, read_name)
                && to_string_from_display_ensures::<Expr>(&expr, read_expr)
        },
        ConstraintShape::Other => r is Other,
    }
}

/// Whether `rs` are what the rules read of the table constraints `cs`.
pub open spec fn reads_constraints(cs: Seq<TableConstraint>, rs: Seq<Constraint>) -> bool {
    &&& rs.len() == cs.len()
    &&& forall|i: int| 0 <= i < cs.len() ==> reads_constraint(cs[i], #[trigger] rs[i])
}

/// Whether `r` is what the rules read of the column change `op`.
pub open spec fn reads_column_change(op: AlterColumnOperation, r: ColumnChange) -> bool {
    match column_change_shape_of(op) {
        ColumnChangeShape::SetNotNull => r is SetNotNull,
        ColumnChangeShape::SetDataType(data_type, using) => r matches ColumnChange::SetDataType {
            data_type: read_type,
            using: read_using,
        } && to_string_from_display_ensures::<DataType>(data_type, read_type) && read_using
            == using is Some,
        ColumnChangeShape::Other => r is Other,
    }
}

/// Whether `r` is what the rules read of the operation `op`.
pub open spec fn reads_operation(op: AlterTableOperation, r: AlterOperation) -> bool {
    match operation_shape_of(op) {
        OperationShape::AddColumn(column_def) => r matches AlterOperation::AddColumn {
            column_def: read_column,
        } && reads_column(*column_def, read_column),
        OperationShape::AddConstraint(constraint) => r matches AlterOperation::AddConstraint {
            constraint: read,
        } && reads_constraint(*constraint, read),
        OperationShape::DropColumn(column_names, if_exists) => r matches AlterOperation::DropColumn {
            column_names: read_names,
            if_exists: read_if_exists,
        } && reads_identifiers(column_names@, read_names@) && read_if_exists == if_exists,
        OperationShape::DropConstraint(name) => r matches AlterOperation::DropConstraint {
            name: read_name,
        } && to_string_from_display_ensures::<Ident>(name, read_name),
        OperationShape::RenameColumn(old_name, new_name) => r matches AlterOperation::RenameColumn {
            old_column_name,
            new_column_name,
        } && to_string_from_display_ensures::<Ident>(old_name, old_column_name)
            && to_string_from_display_ensures::<Ident>(new_name, new_column_name),
        OperationShape::RenameTable(table_name) => r matches AlterOperation::RenameTable {
            table_name: read_name,
        } && to_string_from_display_ensures::<ObjectName>(
            &rename_target_of(*table_name),
            read_name,
        ),
        OperationShape::AlterColumn(column_name, change) => r matches AlterOperation::AlterColumn {
            column_name: read_name,
            op: read_change,
        } && to_string_from_display_ensures::<Ident>(column_name, read_name)
            && reads_column_change(*change, read_change),
        OperationShape::Other => r is Other,
    }
}

/// Whether `rs` are what the rules read of the operations `ops`.
pub open spec fn reads_operations(ops: Seq<AlterTableOperation>, rs: Seq<AlterOperation>) -> bool {
    &&& rs.len() == ops.len()
    &&& forall|i: int| 0 <= i < ops.len() ==> reads_operation(ops[i], #[trigger] rs[i])
}

/// Whether `texts` are the renderings of the tables `targets`, one for one.
pub open spec fn reads_targets(targets: Seq<TruncateTableTarget>, texts: Seq<String>) -> bool {
    &&& texts.len() == targets.len()
    &&& forall|i: int|
        0 <= i < targets.len() ==> to_string_from_display_ensures::<TruncateTableTarget>(
            &targets[i],
            #[trigger] texts[i],
        )
}

/// Whether `r` is what the rules read of the kind of `stmt`: which of the
/// statements it is, with the renderings of its names and the readings of
/// its parts. A statement that no rule reads is read as `Other`.
pub open spec fn reads_kind(stmt: Statement, r: StatementKind) -> bool {
    match statement_shape_of(stmt) {
        StatementShape::AlterTable(a) => {
            let (name, operations) = alter_table_parts_of(*a);
            r matches StatementKind::AlterTable { name: read_name, operations: read_operations }
                && to_string_from_display_ensures::<ObjectName>(&name, read_name)
                && reads_operations(operations, read_operations@)
        },
        StatementShape::CreateIndex(c) => {
            let (name, table_name, unique, concurrently, columns) = create_index_parts_of(*c);
            r matches StatementKind::CreateIndex {
                name: read_name,
                table_name: read_table,
                unique: read_unique,
                concurrently: read_concurrently,
                columns: read_columns,
            } && (match name {
                Some(n) => read_name matches Some(t) && to_string_from_display_ensures::<
                    ObjectName,
                >(&n, t),
                None => read_name is None,
            }) && to_string_from_display_ensures::<ObjectName>(&table_name, read_table)
                && read_unique == unique && read_concurrently == concurrently
                && reads_key_columns(columns, read_columns@)
        },
        StatementShape::CreateTable(c) => {
            let (name, columns, constraints) = create_table_parts_of(*c);
            r matches StatementKind::CreateTable {
                name: read_name,
                columns: read_columns,
                constraints: read_constraints,
            } && to_string_from_display_ensures::<ObjectName>(&name, read_name) && reads_columns(
                columns,
                read_columns@,
            ) && reads_constraints(constraints, read_constraints@)
        },
        StatementShape::Truncate(t) => r matches StatementKind::Truncate { table_names }
            && reads_targets(truncate_targets_of(*t), table_names@),
        StatementShape::CreateExtension(c) => {
            let (name, if_not_exists) = create_extension_parts_of(*c);
            r matches StatementKind::CreateExtension {
                name: read_name,
                if_not_exists: read_if_not_exists,
            } && to_string_from_display_ensures::<Ident>(&name, read_name) && read_if_not_exists
                == if_not_exists
        },
        StatementShape::Other => r is Other,
    }
}

/// Whether `node` is what the rules read of `stmt`: its kind, and its
/// rendering.
pub open spec fn reads_statement(stmt: Statement, node: StatementNode) -> bool {
    &&& reads_kind(stmt, node.kind)
    &&& to_string_from_display_ensures::<Statement>(&stmt, node.text)
}

/// Whether `nodes` are what the rules read of `stmts`, one for one.
pub open spec fn reads_statements(stmts: Seq<Statement>, nodes: Seq<StatementNode>) -> bool {
    &&& nodes.len() == stmts.len()
    &&& forall|i: int| 0 <= i < stmts.len() ==> reads_statement(stmts[i], #[trigger] nodes[i])
}

/// Whether `parsed` is what becomes of the parser's answer `outcome`: the
/// readings of its statements, in order, or the rendering of its error.
pub open spec fn reads_outcome(
    outcome: Result<Seq<Statement>, ParserError>,
    parsed: Result<Vec<StatementNode>, String>,
) -> bool {
    match outcome {
        Ok(stmts) => parsed matches Ok(nodes) && reads_statements(stmts, nodes@),
        Err(e) => parsed matches Err(msg) && to_string_from_display_ensures::<ParserError>(&e, msg),
    }
}

/// Whether parsing `sql` fails: the text is refused before parsing, or the
/// parser rejects it.
pub open spec fn parse_fails(sql: Seq<char>) -> bool {
    !parser_admits(sql) || parse_outcome(sql) is Err
}

/// Whether `msg` is the message with which parsing `sql` fails: the
/// library's own for a text that is refused before parsing, else the
/// rendering of the parser's error.
pub open spec fn failure_message(sql: Seq<char>, msg: String) -> bool {
    if !parser_admits(sql) {
        msg@ == REFUSED_MESSAGE@
    } else {
        parse_outcome(sql) matches Err(e) && to_string_from_display_ensures::<ParserError>(
            &e,
            msg,
        )
    }
}

/// Whether `parsed` is what parsing `sql` gives: the readings of the
/// parser's statements, in source order, or the message of the failure.
pub open spec fn parsing_of(sql: Seq<char>, parsed: Result<Vec<StatementNode>, String>) -> bool {
    if parse_fails(sql) {
        parsed matches Err(msg) && failure_message(sql, msg)
    } else {
        parsed matches Ok(nodes) && reads_statements(parse_outcome(sql)->Ok_0, nodes@)
    }
}

/// The renderings of `idents`, in order.
fn identifier_texts(idents: &Vec<Ident>) -> (texts: Vec<String>)
    ensures
        reads_identifiers(idents@, texts@),
{
    let mut texts: Vec<String> = Vec::new();
    let mut i: usize = 0;
    while i < idents.len()
        invariant
            i <= idents.len(),
            reads_identifiers(idents@.take(i as int), texts@),
        decreases idents.len() - i,
    {
        texts.push(idents[i].to_string());
        i = i + 1;
    }
    assert(idents@.take(idents@.len() as int) =~= idents@);
    texts
}

/// The rendering of `ident`, where there is one.
fn optional_identifier_text(ident: &Option<Ident>) -> (text: Option<String>)
    ensures
        reads_optional_identifier(*ident, text),
{
    match ident {
        Some(i) => Some(i.to_string()),
        None => None,
    }
}

/// What the rules read of a data type.
fn read_column_type(t: &DataType) -> (r: ColumnType)
    ensures
        reads_column_type(*t, r),
{
    let kind = match data_type_shape(t) {
        DataTypeShape::SmallInt => DataTypeKind::SmallInt,
        DataTypeShape::Int => DataTypeKind::Int,
        DataTypeShape::Integer => DataTypeKind::Integer,
        DataTypeShape::Int2 => DataTypeKind::Int2,
        DataTypeShape::Int4 => DataTypeKind::Int4,
        DataTypeShape::Json => DataTypeKind::Json,
        DataTypeShape::Custom(name) => DataTypeKind::Custom { name: name.to_string() },
        DataTypeShape::Other => DataTypeKind::Other,
    };
    ColumnType { kind, text: t.to_string() }
}

/// What the rules read of a column definition.
fn read_column(c: &ColumnDef) -> (column: ColumnDefinition)
    ensures
        reads_column(*c, column),
{
    let (name, data_type, option_defs) = column_def_parts(c);
    let mut options: Vec<ColumnOptionKind> = Vec::new();
    let mut i: usize = 0;
    while i < option_defs.len()
        invariant
            i <= option_defs.len(),
            options.len() == i,
            forall|j: int|
                0 <= j < i ==> #[trigger] options@[j] == column_option_kind_of(option_defs@[j]),
        decreases option_defs.len() - i,
    {
        options.push(column_option_kind(&option_defs[i]));
        i = i + 1;
    }
    ColumnDefinition { name: name.to_string(), data_type: read_column_type(data_type), options }
}

/// What the rules read of each column definition, in order.
fn read_columns(columns: &Vec<ColumnDef>) -> (read: Vec<ColumnDefinition>)
    ensures
        reads_columns(columns@, read@),
{
    let mut read: Vec<ColumnDefinition> = Vec::new();
    let mut i: usize = 0;
    while i < columns.len()
        invariant
            i <= columns.len(),
            reads_columns(columns@.take(i as int), read@),
        decreases columns.len() - i,
    {
        read.push(read_column(&columns[i]));
        i = i + 1;
    }
    assert(columns@.take(columns@.len() as int) =~= columns@);
    read
}

/// What the rules read of an index column.
fn read_key_column(c: &IndexColumn) -> (key: KeyColumn)
    ensures
        reads_key_column(*c, key),
{
    let e = index_column_expr(c);
    let expr = match expr_shape(e) {
        ExprShape::Identifier(ident) => ColumnExpr::Identifier { name: ident.to_string() },
        ExprShape::CompoundIdentifier(idents) => ColumnExpr::CompoundIdentifier {
            parts: identifier_texts(idents),
        },
        ExprShape::Other => ColumnExpr::Other,
    };
    KeyColumn { text: c.to_string(), expr_text: e.to_string(), expr }
}

/// What the rules read of each index column, in order.
fn read_key_columns(columns: &Vec<IndexColumn>) -> (keys: Vec<KeyColumn>)
    ensures
        reads_key_columns(columns@, keys@),
{
    let mut keys: Vec<KeyColumn> = Vec::new();
    let mut i: usize = 0;
    while i < columns.len()
        invariant
            i <= columns.len(),
            reads_key_columns(columns@.take(i as int), keys@),
        decreases columns.len() - i,
    {
        keys.push(read_key_column(&columns[i]));
        i = i + 1;
    }
    assert(columns@.take(columns@.len() as int) =~= columns@);
    keys
}

/// What the rules read of a table constraint.
fn read_constraint(c: &TableConstraint) -> (constraint: Constraint)
    ensures
        reads_constraint(*c, constraint),
{
    match constraint_shape(c) {
        ConstraintShape::Unique(u) => {
            let (name, columns) = unique_parts(u);
            Constraint::Unique {
                name: optional_identifier_text(name),
                columns: read_key_columns(columns),
            }
        },
        ConstraintShape::PrimaryKey(p) => {
            let (name, columns) = primary_key_parts(p);
            Constraint::PrimaryKey {
                name: optional_identifier_text(name),
                columns: read_key_columns(columns),
            }
        },
        ConstraintShape::ForeignKey(f) => {
            let (name, columns, foreign_table, referred_columns) = foreign_key_parts(f);
            Constraint::ForeignKey {
                name: optional_identifier_text(name),
                columns: identifier_texts(columns),
                foreign_table: foreign_table.to_string(),
                referred_columns: identifier_texts(referred_columns),
            }
        },
        ConstraintShape::Check(k) => {
            let (name, expr) = check_parts(k);
            Constraint::Check { name: optional_identifier_text(name), expr: expr.to_string() }
        },
        ConstraintShape::Other => Constraint::Other,
    }
}

/// What the rules read of each table constraint, in order.
fn read_constraints(constraints: &Vec<TableConstraint>) -> (read: Vec<Constraint>)
    ensures
        reads_constraints(constraints@, read@),
{
    let mut read: Vec<Constraint> = Vec::new();
    let mut i: usize = 0;
    while i < constraints.len()
        invariant
            i <= constraints.len(),
            reads_constraints(constraints@.take(i as int), read@),
        decreases constraints.len() - i,
    {
        read.push(read_constraint(&constraints[i]));
        i = i + 1;
    }
    assert(constraints@.take(constraints@.len() as int) =~= constraints@);
    read
}

/// What the rules read of a column change.
fn read_column_change(change: &AlterColumnOperation) -> (read: ColumnChange)
    ensures
        reads_column_change(*change, read),
{
    match column_change_shape(change) {
        ColumnChangeShape::SetNotNull => ColumnChange::SetNotNull,
        ColumnChangeShape::SetDataType(data_type, using) => ColumnChange::SetDataType {
            data_type: data_type.to_string(),
            using: using.is_some(),
        },
        ColumnChangeShape::Other => ColumnChange::Other,
    }
}

/// What the rules read of one `ALTER TABLE` operation.
fn read_operation(op: &AlterTableOperation) -> (read: AlterOperation)
    ensures
        reads_operation(*op, read),
{
    match operation_shape(op) {
        OperationShape::AddColumn(column_def) => AlterOperation::AddColumn {
            column_def: read_column(column_def),
        },
        OperationShape::AddConstraint(constraint) => AlterOperation::AddConstraint {
            constraint: read_constraint(constraint),
        },
        OperationShape::DropColumn(column_names, if_exists) => AlterOperation::DropColumn {
            column_names: identifier_texts(column_names),
            if_exists,
        },
        OperationShape::DropConstraint(name) => AlterOperation::DropConstraint {
            name: name.to_string(),
        },
        OperationShape::RenameColumn(old_name, new_name) => AlterOperation::RenameColumn {
            old_column_name: old_name.to_string(),
            new_column_name: new_name.to_string(),
        },
        OperationShape::RenameTable(table_name) => AlterOperation::RenameTable {
            table_name: rename_target(table_name).to_string(),
        },
        OperationShape::AlterColumn(column_name, change) => AlterOperation::AlterColumn {
            column_name: column_name.to_string(),
            op: read_column_change(change),
        },
        OperationShape::Other => AlterOperation::Other,
    }
}

/// What the rules read of each operation, in order.
fn read_operations(ops: &Vec<AlterTableOperation>) -> (read: Vec<AlterOperation>)
    ensures
        reads_operations(ops@, read@),
{
    let mut read: Vec<AlterOperation> = Vec::new();
    let mut i: usize = 0;
    while i < ops.len()
        invariant
            i <= ops.len(),
            reads_operations(ops@.take(i as int), read@),
        decreases ops.len() - i,
    {
        read.push(read_operation(&ops[i]));
        i = i + 1;
    }
    assert(ops@.take(ops@.len() as int) =~= ops@);
    read
}

/// The renderings of the tables of a `TRUNCATE`, in order.
fn read_targets(targets: &Vec<TruncateTableTarget>) -> (texts: Vec<String>)
    ensures
        reads_targets(targets@, texts@),
{
    let mut texts: Vec<String> = Vec::new();
    let mut i: usize = 0;
    while i < targets.len()
        invariant
            i <= targets.len(),
            reads_targets(targets@.take(i as int), texts@),
        decreases targets.len() - i,
    {
        texts.push(targets[i].to_string());
        i = i + 1;
    }
    assert(targets@.take(targets@.len() as int) =~= targets@);
    texts
}

/// What the rules read of the kind of a statement.
fn read_kind(stmt: &Statement) -> (kind: StatementKind)
    ensures
        reads_kind(*stmt, kind),
{
    match statement_shape(stmt) {
        StatementShape::AlterTable(a) => {
            let (name, ops) = alter_table_parts(a);
            StatementKind::AlterTable { name: name.to_string(), operations: read_operations(ops) }
        },
        StatementShape::CreateIndex(c) => {
            let (name, table_name, unique, concurrently, columns) = create_index_parts(c);
            let name = match name {
                Some(n) => Some(n.to_string()),
                None => None,
            };
            StatementKind::CreateIndex {
                name,
                table_name: table_name.to_string(),
                unique,
                concurrently,
                columns: read_key_columns(columns),
            }
        },
        StatementShape::CreateTable(c) => {
            let (name, columns, constraints) = create_table_parts(c);
            StatementKind::CreateTable {
                name: name.to_string(),
                columns: read_columns(columns),
                constraints: read_constraints(constraints),
            }
        },
        StatementShape::Truncate(t) => StatementKind::Truncate {
            table_names: read_targets(truncate_targets(t)),
        },
        StatementShape::CreateExtension(c) => {
            let (name, if_not_exists) = create_extension_parts(c);
            StatementKind::CreateExtension { name: name.to_string(), if_not_exists }
        },
        StatementShape::Other => StatementKind::Other,
    }
}

/// What the rules read of one statement of the parser.
fn read_statement(stmt: &Statement) -> (node: StatementNode)
    ensures
        reads_statement(*stmt, node),
{
    StatementNode { kind: read_kind(stmt), text: stmt.to_string() }
}

/// Whether the tokens hold a refused pair.
fn holds_refused_pair(tokens: &Vec<Token>) -> (r: bool)
    ensures
        r == refused(classes_of(tokens@)),
{
    let ghost classes = classes_of(tokens@);
    let mut last = TokenClass::Whitespace;
    let ghost mut at: int = -1;
    let mut n: usize = 0;
    while n < tokens.len()
        invariant
            n <= tokens.len(),
            classes == classes_of(tokens@),
            -1 <= at < n,
            at >= 0 ==> last == classes[at] && last != TokenClass::Whitespace,
            at < 0 ==> last == TokenClass::Whitespace,
            forall|k: int| at < k < n ==> #[trigger] classes[k] == TokenClass::Whitespace,
            forall|i: int, j: int|
                j < n && #[trigger] directly_follows(classes, i, j) ==> !refused_pair(
                    classes[i],
                    classes[j],
                ),
        decreases tokens.len() - n,
    {
        let class = token_class(&tokens[n]);
        assert(class == classes[n as int]);
        if class != TokenClass::Whitespace {
            let pair = (class == TokenClass::AuthorizationWord && (last == TokenClass::SetWord || last
                == TokenClass::Colon)) || (class == TokenClass::TableWord && last
                == TokenClass::ExternalWord);
            if pair {
                assert(directly_follows(classes, at, n as int));
                return true;
            }
            assert forall|i: int| #[trigger] directly_follows(classes, i, n as int) implies !refused_pair(
                classes[i],
                classes[n as int],
            ) by {
                if i < at {
                    assert(classes[at] == TokenClass::Whitespace);
                } else if i > at {
                    assert(classes[i] == TokenClass::Whitespace);
                }
            }
            last = class;
            proof {
                at = n as int;
            }
        } else {
            assert forall|i: int| #[trigger] directly_follows(classes, i, n as int) implies !refused_pair(
                classes[i],
                classes[n as int],
            ) by {}
        }
        n = n + 1;
    }
    false
}

/// Whether `sql` may be handed to the parser.
pub fn admits(sql: &str) -> (r: bool)
    ensures
        r == parser_admits(sql@),
{
    match tokenize(sql) {
        Ok(tokens) => !holds_refused_pair(&tokens),
        Err(_) => true,
    }
}

/// Parses `sql` as PostgreSQL. Gives what the rules read of the parser's
/// statements, in source order, or the message of the failure: the parser's
/// own, or [`REFUSED_MESSAGE`] for a text that is refused before parsing.
pub fn parse_sql(sql: &str) -> (parsed: Result<Vec<StatementNode>, String>)
    ensures
        parsing_of(sql@, parsed),
{
    if !admits(sql) {
        return Err(String::from_str(REFUSED_MESSAGE));
    }
    match parse_statements(sql) {
        Ok(stmts) => {
            let mut nodes: Vec<StatementNode> = Vec::new();
            let mut i: usize = 0;
            while i < stmts.len()
                invariant
                    i <= stmts.len(),
                    reads_statements(stmts@.take(i as int), nodes@),
                decreases stmts.len() - i,
            {
                nodes.push(read_statement(&stmts[i]));
                i = i + 1;
            }
            assert(stmts@.take(stmts@.len() as int) =~= stmts@);
            Ok(nodes)
        },
        Err(e) => Err(e.to_string()),
    }
}

} // verus!
