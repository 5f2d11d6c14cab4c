//! The bulk-copy write plans.
//!
//! A flush does not talk to the database from here; it produces
//! [`TableWrite`] plans — the exact `COPY ... FROM STDIN BINARY` statement,
//! the column types and every row's typed column tuple — which the caller
//! executes over its own connection.

use vstd::prelude::*;
use vstd::string::StringExecFns;

use crate::rows::{
    artist_row, label_row, master_artist_row, master_row, release_label_row, release_row,
    release_video_row, Artist, ArtistV, Label, LabelV, Master, MasterArtist, MasterArtistV,
    MasterV, Release, ReleaseLabel, ReleaseLabelV, ReleaseV, ReleaseVideo, ReleaseVideoV,
};

verus! {

/// Mathematical image of a [`SqlValue`].
pub ghost enum SqlValueV {
    Integer(i32),
    Text(Seq<char>),
    TextArray(Seq<Seq<char>>),
}

/// One typed column value of a bulk-copy tuple.
#[derive(Debug, Clone, PartialEq, Eq)]
pub enum SqlValue {
    Integer(i32),
    Text(String),
    TextArray(Vec<String>),
}

impl View for SqlValue {
    type V = SqlValueV;

    open spec fn view(&self) -> SqlValueV {
        match self {
            SqlValue::Integer(v) => SqlValueV::Integer(*v),
            SqlValue::Text(s) => SqlValueV::Text(s@),
            SqlValue::TextArray(a) => SqlValueV::TextArray(crate::events::strs_view(a@)),
        }
    }
}

/// The views of one column tuple.
pub open spec fn sql_values_view(row: Seq<SqlValue>) -> Seq<SqlValueV> {
    row.map_values(|v: SqlValue| v@)
}

/// The views of a sequence of column tuples.
pub open spec fn sql_rows_view(rows: Seq<Vec<SqlValue>>) -> Seq<Seq<SqlValueV>> {
    rows.map_values(|r: Vec<SqlValue>| sql_values_view(r@))
}

/// The wire type of one column, as the binary copy protocol declares it.
#[derive(Debug, Clone, Copy, PartialEq, Eq, Structural)]
pub enum SqlType {
    Int4,
    Text,
    TextArray,
}

/// A record that can hand its column values to the bulk writer.
pub trait SqlSerialization: View + Sized {
    /// The typed column tuple of a record with view `v`, in the declared
    /// column order of its target table.
    spec fn row_spec(v: Self::V) -> Seq<SqlValueV>;

    /// The record's column values, in declared column order.
    fn to_sql(&self) -> (r: Vec<SqlValue>)
        ensures
            sql_values_view(r@) == Self::row_spec(self@),
    ;
}

/// The statement that opens a binary bulk-copy stream for `table` with the
/// given column list.
pub open spec fn spec_copy_statement(table: Seq<char>, columns: Seq<char>) -> Seq<char> {
    "COPY "@ + table + " "@ + columns + " FROM STDIN BINARY"@
}

/// Builds the bulk-copy statement sent for one table.
pub fn get_copy_statement(table: &str, columns: &str) -> (r: String)
    ensures
        r@ == spec_copy_statement(table@, columns@),
{
    let mut s = String::from_str("COPY ");
    s.append(table);
    s.append(" ");
    s.append(columns);
    s.append(" FROM STDIN BINARY");
    s
}

/// The prepared statement of one bulk-copy invocation.
#[derive(Debug, Clone, PartialEq, Eq)]
pub struct InsertCommand {
    pub copy_stm: String,
}

impl InsertCommand {
    /// Prepares the copy statement for `table_name` and its column list.
    pub fn new(table_name: &str, column_name: &str) -> (r: Self)
        ensures
            r.copy_stm@ == spec_copy_statement(table_name@, column_name@),
    {
        InsertCommand { copy_stm: get_copy_statement(table_name, column_name) }
    }
}

/// Mathematical image of a [`TableWrite`].
pub ghost struct TableWriteV {
    pub table: Seq<char>,
    pub copy_stm: Seq<char>,
    pub types: Seq<SqlType>,
    pub rows: Seq<Seq<SqlValueV>>,
}

/// Everything one bulk-copy invocation needs: the target table, the exact
/// statement, the positional column types and the rows to stream.
#[derive(Debug, PartialEq)]
pub struct TableWrite {
    pub table: String,
    pub copy_stm: String,
    pub types: Vec<SqlType>,
    pub rows: Vec<Vec<SqlValue>>,
}

impl View for TableWrite {
    type V = TableWriteV;

    open spec fn view(&self) -> TableWriteV {
        TableWriteV {
            table: self.table@,
            copy_stm: self.copy_stm@,
            types: self.types@,
            rows: sql_rows_view(self.rows@),
        }
    }
}

/// The views of a write plan.
pub open spec fn writes_view(w: Seq<TableWrite>) -> Seq<TableWriteV> {
    w.map_values(|t: TableWrite| t@)
}

/// Serialises every record of a batch, in batch order.
pub fn rows_to_sql<R: SqlSerialization>(records: &Vec<R>) -> (r: Vec<Vec<SqlValue>>)
    ensures
        sql_rows_view(r@) == records@.map_values(|x: R| R::row_spec(x@)),
{
    let mut r: Vec<Vec<SqlValue>> = Vec::new();
    let mut i: usize = 0;
    while i < records.len()
        invariant
            0 <= i <= records@.len(),
            r@.len() == i,
            forall|j: int|
                0 <= j < i ==> sql_values_view(#[trigger] r@[j]@) == R::row_spec(records@[j]@),
        decreases records@.len() - i,
    {
        r.push(records[i].to_sql());
        i += 1;
    }
    proof {
        assert(sql_rows_view(r@) =~= records@.map_values(|x: R| R::row_spec(x@)));
    }
    r
}

/// The views of a record batch.
pub open spec fn recs_view<R: View>(s: Seq<R>) -> Seq<R::V> {
    s.map_values(|r: R| r@)
}

/// An empty write plan: nothing crossed the batch threshold.
pub fn no_writes() -> (w: Vec<TableWrite>)
    ensures
        writes_view(w@) == Seq::<TableWriteV>::empty(),
{
    let w: Vec<TableWrite> = Vec::new();
    proof {
        assert(writes_view(w@) =~= Seq::<TableWriteV>::empty());
    }
    w
}

/// The column list of the `artist` table.
pub open spec fn artist_columns() -> Seq<char> {
    "(id, name, real_name, profile, data_quality, name_variations, urls, aliases, members)"@
}

/// The column types of the `artist` table.
pub open spec fn artist_types() -> Seq<SqlType> {
    seq![
        SqlType::Int4,
        SqlType::Text,
        SqlType::Text,
        SqlType::Text,
        SqlType::Text,
        SqlType::TextArray,
        SqlType::TextArray,
        SqlType::TextArray,
        SqlType::TextArray,
    ]
}

/// The bulk-copy invocation that writes an artist batch.
pub open spec fn artist_table_write(rows: Seq<ArtistV>) -> TableWriteV {
    TableWriteV {
        table: "artist"@,
        copy_stm: spec_copy_statement("artist"@, artist_columns()),
        types: artist_types(),
        rows: rows.map_values(|a: ArtistV| artist_row(a)),
    }
}

fn artist_write(artists: &Vec<Artist>) -> (tw: TableWrite)
    ensures
        tw@ == artist_table_write(recs_view(artists@)),
{
    let mut types: Vec<SqlType> = Vec::new();
    types.push(SqlType::Int4);
    types.push(SqlType::Text);
    types.push(SqlType::Text);
    types.push(SqlType::Text);
    types.push(SqlType::Text);
    types.push(SqlType::TextArray);
    types.push(SqlType::TextArray);
    types.push(SqlType::TextArray);
    types.push(SqlType::TextArray);
    proof {
        assert(types@ =~= artist_types());
    }
    let insert = InsertCommand::new(
        "artist",
        "(id, name, real_name, profile, data_quality, name_variations, urls, aliases, members)",
    );
    let tw = TableWrite {
        table: String::from_str("artist"),
        copy_stm: insert.copy_stm,
        types,
        rows: rows_to_sql(artists),
    };
    proof {
        assert(tw@.rows =~= recs_view(artists@).map_values(|a: ArtistV| artist_row(a)));
    }
    tw
}

/// The column list of the `label` table.
pub open spec fn label_columns() -> Seq<char> {
    "(id, name, contactinfo, profile, parent_label, sublabels, urls, data_quality)"@
}

/// The column types of the `label` table.
pub open spec fn label_types() -> Seq<SqlType> {
    seq![
        SqlType::Int4,
        SqlType::Text,
        SqlType::Text,
        SqlType::Text,
        SqlType::Text,
        SqlType::TextArray,
        SqlType::TextArray,
        SqlType::Text,
    ]
}

/// The bulk-copy invocation that writes a label batch.
pub open spec fn label_table_write(rows: Seq<LabelV>) -> TableWriteV {
    TableWriteV {
        table: "label"@,
        copy_stm: spec_copy_statement("label"@, label_columns()),
        types: label_types(),
        rows: rows.map_values(|l: LabelV| label_row(l)),
    }
}

fn label_write(labels: &Vec<Label>) -> (tw: TableWrite)
    ensures
        tw@ == label_table_write(recs_view(labels@)),
{
    let mut types: Vec<SqlType> = Vec::new();
    types.push(SqlType::Int4);
    types.push(SqlType::Text);
    types.push(SqlType::Text);
    types.push(SqlType::Text);
    types.push(SqlType::Text);
    types.push(SqlType::TextArray);
    types.push(SqlType::TextArray);
    types.push(SqlType::Text);
    proof {
        assert(types@ =~= label_types());
    }
    let insert = InsertCommand::new(
        "label",
        "(id, name, contactinfo, profile, parent_label, sublabels, urls, data_quality)",
    );
    let tw = TableWrite {
        table: String::from_str("label"),
        copy_stm: insert.copy_stm,
        types,
        rows: rows_to_sql(labels),
    };
    proof {
        assert(tw@.rows =~= recs_view(labels@).map_values(|l: LabelV| label_row(l)));
    }
    tw
}

/// The column list of the `master` table.
pub open spec fn master_columns() -> Seq<char> {
    "(id, title, release_id, year, notes, genres, styles, data_quality)"@
}

/// The column types of the `master` table.
pub open spec fn master_types() -> Seq<SqlType> {
    seq![
        SqlType::Int4,
        SqlType::Text,
        SqlType::Int4,
        SqlType::Int4,
        SqlType::Text,
        SqlType::TextArray,
        SqlType::TextArray,
        SqlType::Text,
    ]
}

/// The bulk-copy invocation that writes a master batch.
pub open spec fn master_table_write(rows: Seq<MasterV>) -> TableWriteV {
    TableWriteV {
        table: "master"@,
        copy_stm: spec_copy_statement("master"@, master_columns()),
        types: master_types(),
        rows: rows.map_values(|m: MasterV| master_row(m)),
    }
}

fn master_write(masters: &Vec<Master>) -> (tw: TableWrite)
    ensures
        tw@ == master_table_write(recs_view(masters@)),
{
    let mut types: Vec<SqlType> = Vec::new();
    types.push(SqlType::Int4);
    types.push(SqlType::Text);
    types.push(SqlType::Int4);
    types.push(SqlType::Int4);
    types.push(SqlType::Text);
    types.push(SqlType::TextArray);
    types.push(SqlType::TextArray);
    types.push(SqlType::Text);
    proof {
        assert(types@ =~= master_types());
    }
    let insert = InsertCommand::new(
        "master",
        "(id, title, release_id, year, notes, genres, styles, data_quality)",
    );
    let tw = TableWrite {
        table: String::from_str("master"),
        copy_stm: insert.copy_stm,
        types,
        rows: rows_to_sql(masters),
    };
    proof {
        assert(tw@.rows =~= recs_view(masters@).map_values(|m: MasterV| master_row(m)));
    }
    tw
}

/// The column list of the `master_artist` table.
pub open spec fn master_artist_columns() -> Seq<char> {
    "(artist_id, master_id, name, anv, role)"@
}

/// The column types of the `master_artist` table.
pub open spec fn master_artist_types() -> Seq<SqlType> {
    seq![SqlType::Int4, SqlType::Int4, SqlType::Text, SqlType::Text, SqlType::Text]
}

/// The bulk-copy invocation that writes a master-artist batch.
pub open spec fn master_artist_table_write(rows: Seq<MasterArtistV>) -> TableWriteV {
    TableWriteV {
        table: "master_artist"@,
        copy_stm: spec_copy_statement("master_artist"@, master_artist_columns()),
        types: master_artist_types(),
        rows: rows.map_values(|a: MasterArtistV| master_artist_row(a)),
    }
}

fn master_artist_write(artists: &Vec<MasterArtist>) -> (tw: TableWrite)
    ensures
        tw@ == master_artist_table_write(recs_view(artists@)),
{
    let mut types: Vec<SqlType> = Vec::new();
    types.push(SqlType::Int4);
    types.push(SqlType::Int4);
    types.push(SqlType::Text);
    types.push(SqlType::Text);
    types.push(SqlType::Text);
    proof {
        assert(types@ =~= master_artist_types());
    }
    let insert = InsertCommand::new("master_artist", "(artist_id, master_id, name, anv, role)");
    let tw = TableWrite {
        table: String::from_str("master_artist"),
        copy_stm: insert.copy_stm,
        types,
        rows: rows_to_sql(artists),
    };
    proof {
        assert(tw@.rows =~= recs_view(artists@).map_values(
            |a: MasterArtistV| master_artist_row(a),
        ));
    }
    tw
}

/// The column list of the `release` table.
pub open spec fn release_columns() -> Seq<char> {
    "(id, status, title, country, released, notes, genres, styles, master_id, data_quality)"@
}

/// The column types of the `release` table.
pub open spec fn release_types() -> Seq<SqlType> {
    seq![
        SqlType::Int4,
        SqlType::Text,
        SqlType::Text,
        SqlType::Text,
        SqlType::Text,
        SqlType::Text,
        SqlType::TextArray,
        SqlType::TextArray,
        SqlType::Int4,
        SqlType::Text,
    ]
}

/// The bulk-copy invocation that writes a release batch.
pub open spec fn release_table_write(rows: Seq<ReleaseV>) -> TableWriteV {
    TableWriteV {
        table: "release"@,
        copy_stm: spec_copy_statement("release"@, release_columns()),
        types: release_types(),
        rows: rows.map_values(|r: ReleaseV| release_row(r)),
    }
}

fn release_write(releases: &Vec<Release>) -> (tw: TableWrite)
    ensures
        tw@ == release_table_write(recs_view(releases@)),
{
    let mut types: Vec<SqlType> = Vec::new();
    types.push(SqlType::Int4);
    types.push(SqlType::Text);
    types.push(SqlType::Text);
    types.push(SqlType::Text);
    types.push(SqlType::Text);
    types.push(SqlType::Text);
    types.push(SqlType::TextArray);
    types.push(SqlType::TextArray);
    types.push(SqlType::Int4);
    types.push(SqlType::Text);
    proof {
        assert(types@ =~= release_types());
    }
    let insert = InsertCommand::new(
        "release",
        "(id, status, title, country, released, notes, genres, styles, master_id, data_quality)",
    );
    let tw = TableWrite {
        table: String::from_str("release"),
        copy_stm: insert.copy_stm,
        types,
        rows: rows_to_sql(releases),
    };
    proof {
        assert(tw@.rows =~= recs_view(releases@).map_values(|r: ReleaseV| release_row(r)));
    }
    tw
}

/// The column list of the `release_label` table.
pub open spec fn release_label_columns() -> Seq<char> {
    "(release_id, label, catno, label_id)"@
}

/// The column types of the `release_label` table.
pub open spec fn release_label_types() -> Seq<SqlType> {
    seq![SqlType::Int4, SqlType::Text, SqlType::Text, SqlType::Int4]
}

/// The bulk-copy invocation that writes a release-label batch.
pub open spec fn release_label_table_write(rows: Seq<ReleaseLabelV>) -> TableWriteV {
    TableWriteV {
        table: "release_label"@,
        copy_stm: spec_copy_statement("release_label"@, release_label_columns()),
        types: release_label_types(),
        rows: rows.map_values(|l: ReleaseLabelV| release_label_row(l)),
    }
}

fn release_label_write(labels: &Vec<ReleaseLabel>) -> (tw: TableWrite)
    ensures
        tw@ == release_label_table_write(recs_view(labels@)),
{
    let mut types: Vec<SqlType> = Vec::new();
    types.push(SqlType::Int4);
    types.push(SqlType::Text);
    types.push(SqlType::Text);
    types.push(SqlType::Int4);
    proof {
        assert(types@ =~= release_label_types());
    }
    let insert = InsertCommand::new("release_label", "(release_id, label, catno, label_id)");
    let tw = TableWrite {
        table: String::from_str("release_label"),
        copy_stm: insert.copy_stm,
        types,
        rows: rows_to_sql(labels),
    };
    proof {
        assert(tw@.rows =~= recs_view(labels@).map_values(
            |l: ReleaseLabelV| release_label_row(l),
        ));
    }
    tw
}

/// The column list of the `release_video` table.
pub open spec fn release_video_columns() -> Seq<char> {
    "(release_id, duration, src, title)"@
}

/// The column types of the `release_video` table.
pub open spec fn release_video_types() -> Seq<SqlType> {
    seq![SqlType::Int4, SqlType::Int4, SqlType::Text, SqlType::Text]
}

/// The bulk-copy invocation that writes a release-video batch.
pub open spec fn release_video_table_write(rows: Seq<ReleaseVideoV>) -> TableWriteV {
    TableWriteV {
        table: "release_video"@,
        copy_stm: spec_copy_statement("release_video"@, release_video_columns()),
        types: release_video_types(),
        rows: rows.map_values(|v: ReleaseVideoV| release_video_row(v)),
    }
}

fn release_video_write(videos: &Vec<ReleaseVideo>) -> (tw: TableWrite)
    ensures
        tw@ == release_video_table_write(recs_view(videos@)),
{
    let mut types: Vec<SqlType> = Vec::new();
    types.push(SqlType::Int4);
    types.push(SqlType::Int4);
    types.push(SqlType::Text);
    types.push(SqlType::Text);
    proof {
        assert(types@ =~= release_video_types());
    }
    let insert = InsertCommand::new("release_video", "(release_id, duration, src, title)");
    let tw = TableWrite {
        table: String::from_str("release_video"),
        copy_stm: insert.copy_stm,
        types,
        rows: rows_to_sql(videos),
    };
    proof {
        assert(tw@.rows =~= recs_view(videos@).map_values(
            |v: ReleaseVideoV| release_video_row(v),
        ));
    }
    tw
}

/// The write plan of one artist flush: the `artist` table when the batch
/// is non-empty, nothing otherwise.
pub open spec fn spec_write_artists(rows: Seq<ArtistV>) -> Seq<TableWriteV> {
    if rows.len() == 0 {
        Seq::empty()
    } else {
        seq![artist_table_write(rows)]
    }
}

/// Plans the bulk copy of one artist batch; empty batches write nothing.
pub fn write_artists(artists: &Vec<Artist>) -> (w: Vec<TableWrite>)
    ensures
        writes_view(w@) == spec_write_artists(recs_view(artists@)),
{
    let mut w: Vec<TableWrite> = Vec::new();
    if artists.len() > 0 {
        w.push(artist_write(artists));
    }
    proof {
        assert(writes_view(w@) =~= spec_write_artists(recs_view(artists@)));
    }
    w
}

/// The write plan of one label flush.
pub open spec fn spec_write_labels(rows: Seq<LabelV>) -> Seq<TableWriteV> {
    if rows.len() == 0 {
        Seq::empty()
    } else {
        seq![label_table_write(rows)]
    }
}

/// Plans the bulk copy of one label batch; empty batches write nothing.
pub fn write_labels(labels: &Vec<Label>) -> (w: Vec<TableWrite>)
    ensures
        writes_view(w@) == spec_write_labels(recs_view(labels@)),
{
    let mut w: Vec<TableWrite> = Vec::new();
    if labels.len() > 0 {
        w.push(label_write(labels));
    }
    proof {
        assert(writes_view(w@) =~= spec_write_labels(recs_view(labels@)));
    }
    w
}

/// The write plan of one master flush: the `master` table, then the
/// `master_artist` table, each only when non-empty.
pub open spec fn spec_write_masters(rows: Seq<MasterV>, kids: Seq<MasterArtistV>) -> Seq<
    TableWriteV,
> {
    let parents: Seq<TableWriteV> = if rows.len() == 0 {
        Seq::empty()
    } else {
        seq![master_table_write(rows)]
    };
    let children: Seq<TableWriteV> = if kids.len() == 0 {
        Seq::empty()
    } else {
        seq![master_artist_table_write(kids)]
    };
    parents + children
}

/// Plans the bulk copy of one master batch, parents before children;
/// empty tables write nothing.
pub fn write_masters(masters: &Vec<Master>, artists: &Vec<MasterArtist>) -> (w: Vec<TableWrite>)
    ensures
        writes_view(w@) == spec_write_masters(recs_view(masters@), recs_view(artists@)),
{
    let mut w: Vec<TableWrite> = Vec::new();
    if masters.len() > 0 {
        w.push(master_write(masters));
    }
    if artists.len() > 0 {
        w.push(master_artist_write(artists));
    }
    proof {
        assert(writes_view(w@) =~= spec_write_masters(recs_view(masters@), recs_view(artists@)));
    }
    w
}

/// The write plan of one release flush: the `release` table, then
/// `release_label`, then `release_video`, each only when non-empty.
pub open spec fn spec_write_releases(
    rows: Seq<ReleaseV>,
    labels: Seq<ReleaseLabelV>,
    videos: Seq<ReleaseVideoV>,
) -> Seq<TableWriteV> {
    let parents: Seq<TableWriteV> = if rows.len() == 0 {
        Seq::empty()
    } else {
        seq![release_table_write(rows)]
    };
    let lab: Seq<TableWriteV> = if labels.len() == 0 {
        Seq::empty()
    } else {
        seq![release_label_table_write(labels)]
    };
    let vid: Seq<TableWriteV> = if videos.len() == 0 {
        Seq::empty()
    } else {
        seq![release_video_table_write(videos)]
    };
    parents + lab + vid
}

/// Plans the bulk copy of one release batch, the parent table before both
/// child tables; empty tables write nothing.
pub fn write_releases(
    releases: &Vec<Release>,
    labels: &Vec<ReleaseLabel>,
    videos: &Vec<ReleaseVideo>,
) -> (w: Vec<TableWrite>)
    ensures
        writes_view(w@) == spec_write_releases(
            recs_view(releases@),
            recs_view(labels@),
            recs_view(videos@),
        ),
{
    let mut w: Vec<TableWrite> = Vec::new();
    if releases.len() > 0 {
        w.push(release_write(releases));
    }
    if labels.len() > 0 {
        w.push(release_label_write(labels));
    }
    if videos.len() > 0 {
        w.push(release_video_write(videos));
    }
    proof {
        assert(writes_view(w@) =~= spec_write_releases(
            recs_view(releases@),
            recs_view(labels@),
            recs_view(videos@),
        ));
    }
    w
}

/// Connection options and the batch threshold, as the command line hands
/// them in.
#[derive(Debug, Clone, PartialEq, Eq)]
pub struct DbOpt {
    /// Number of parent records per flush.
    pub batch_size: usize,
    /// Database host.
    pub db_host: String,
    /// Database user.
    pub db_user: String,
    /// Database password.
    pub db_password: String,
    /// Database name.
    pub db_name: String,
}

/// The keyword/value connection string assembled from the options.
pub open spec fn spec_connection_string(o: DbOpt) -> Seq<char> {
    "host="@ + o.db_host@ + " user="@ + o.db_user@ + " password="@ + o.db_password@ + " dbname="@
        + o.db_name@
}

impl DbOpt {
    /// Assembles the connection string the database client is opened with.
    pub fn connection_string(&self) -> (r: String)
        ensures
            r@ == spec_connection_string(*self),
    {
        let mut s = String::from_str("host=");
        s.append(self.db_host.as_str());
        s.append(" user=");
        s.append(self.db_user.as_str());
        s.append(" password=");
        s.append(self.db_password.as_str());
        s.append(" dbname=");
        s.append(self.db_name.as_str());
        s
    }
}

} // verus!
