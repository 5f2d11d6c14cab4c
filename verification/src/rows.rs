//! The flat record shapes, bound one-to-one to the target tables.
//!
//! Absent text fields default to the empty string, absent integer fields to
//! zero and absent collections to empty arrays; collections keep the
//! insertion order of their source elements.

use vstd::prelude::*;

use crate::events::strs_view;
use crate::sql::{sql_values_view, SqlSerialization, SqlValue, SqlValueV};

verus! {

/// Clones a string array field; the copy's contents equal the original's.
fn clone_strings(v: &Vec<String>) -> (r: Vec<String>)
    ensures
        r@ == v@,
{
    let r = v.clone();
    proof {
        assert forall|i: int| 0 <= i < v@.len() implies r@[i] == v@[i] by {
            assert(cloned::<String>(v@[i], r@[i]));
        }
        assert(r@ =~= v@);
    }
    r
}

/// Mathematical image of an [`Artist`].
pub ghost struct ArtistV {
    pub id: i32,
    pub name: Seq<char>,
    pub real_name: Seq<char>,
    pub profile: Seq<char>,
    pub data_quality: Seq<char>,
    pub name_variations: Seq<Seq<char>>,
    pub urls: Seq<Seq<char>>,
    pub aliases: Seq<Seq<char>>,
    pub members: Seq<Seq<char>>,
}

/// One row of the `artist` table.
#[derive(Debug, PartialEq)]
pub struct Artist {
    pub id: i32,
    pub name: String,
    pub real_name: String,
    pub profile: String,
    pub data_quality: String,
    pub name_variations: Vec<String>,
    pub urls: Vec<String>,
    pub aliases: Vec<String>,
    pub members: Vec<String>,
}

impl View for Artist {
    type V = ArtistV;

    open spec fn view(&self) -> ArtistV {
        ArtistV {
            id: self.id,
            name: self.name@,
            real_name: self.real_name@,
            profile: self.profile@,
            data_quality: self.data_quality@,
            name_variations: strs_view(self.name_variations@),
            urls: strs_view(self.urls@),
            aliases: strs_view(self.aliases@),
            members: strs_view(self.members@),
        }
    }
}

impl Clone for Artist {
    fn clone(&self) -> (res: Self)
        ensures
            res@ == self@,
    {
        Artist {
            id: self.id,
            name: self.name.clone(),
            real_name: self.real_name.clone(),
            profile: self.profile.clone(),
            data_quality: self.data_quality.clone(),
            name_variations: clone_strings(&self.name_variations),
            urls: clone_strings(&self.urls),
            aliases: clone_strings(&self.aliases),
            members: clone_strings(&self.members),
        }
    }
}

/// The artist record every field defaults to.
pub open spec fn artist_default() -> ArtistV {
    ArtistV {
        id: 0,
        name: Seq::empty(),
        real_name: Seq::empty(),
        profile: Seq::empty(),
        data_quality: Seq::empty(),
        name_variations: Seq::empty(),
        urls: Seq::empty(),
        aliases: Seq::empty(),
        members: Seq::empty(),
    }
}

impl Artist {
    /// A fresh artist record with every field at its default.
    pub fn new() -> (r: Self)
        ensures
            r@ == artist_default(),
    {
        let r = Artist {
            id: 0,
            name: String::new(),
            real_name: String::new(),
            profile: String::new(),
            data_quality: String::new(),
            name_variations: Vec::new(),
            urls: Vec::new(),
            aliases: Vec::new(),
            members: Vec::new(),
        };
        proof {
            assert(strs_view(Seq::<String>::empty()) =~= Seq::<Seq<char>>::empty());
        }
        r
    }
}

/// The column tuple of an artist row, in `artist` column order.
pub open spec fn artist_row(a: ArtistV) -> Seq<SqlValueV> {
    seq![
        SqlValueV::Integer(a.id),
        SqlValueV::Text(a.name),
        SqlValueV::Text(a.real_name),
        SqlValueV::Text(a.profile),
        SqlValueV::Text(a.data_quality),
        SqlValueV::TextArray(a.name_variations),
        SqlValueV::TextArray(a.urls),
        SqlValueV::TextArray(a.aliases),
        SqlValueV::TextArray(a.members),
    ]
}

impl SqlSerialization for Artist {
    open spec fn row_spec(v: ArtistV) -> Seq<SqlValueV> {
        artist_row(v)
    }

    fn to_sql(&self) -> (r: Vec<SqlValue>)
        ensures
            sql_values_view(r@) == artist_row(self@),
    {
        let mut r: Vec<SqlValue> = Vec::new();
        r.push(SqlValue::Integer(self.id));
        r.push(SqlValue::Text(self.name.clone()));
        r.push(SqlValue::Text(self.real_name.clone()));
        r.push(SqlValue::Text(self.profile.clone()));
        r.push(SqlValue::Text(self.data_quality.clone()));
        r.push(SqlValue::TextArray(clone_strings(&self.name_variations)));
        r.push(SqlValue::TextArray(clone_strings(&self.urls)));
        r.push(SqlValue::TextArray(clone_strings(&self.aliases)));
        r.push(SqlValue::TextArray(clone_strings(&self.members)));
        proof {
            assert(sql_values_view(r@) =~= artist_row(self@));
        }
        r
    }
}

/// Mathematical image of a [`Label`].
pub ghost struct LabelV {
    pub id: i32,
    pub name: Seq<char>,
    pub contactinfo: Seq<char>,
    pub profile: Seq<char>,
    pub parent_label: Seq<char>,
    pub sublabels: Seq<Seq<char>>,
    pub urls: Seq<Seq<char>>,
    pub data_quality: Seq<char>,
}

/// One row of the `label` table.
#[derive(Debug, PartialEq)]
pub struct Label {
    pub id: i32,
    pub name: String,
    pub contactinfo: String,
    pub profile: String,
    pub parent_label: String,
    pub sublabels: Vec<String>,
    pub urls: Vec<String>,
    pub data_quality: String,
}

impl View for Label {
    type V = LabelV;

    open spec fn view(&self) -> LabelV {
        LabelV {
            id: self.id,
            name: self.name@,
            contactinfo: self.contactinfo@,
            profile: self.profile@,
            parent_label: self.parent_label@,
            sublabels: strs_view(self.sublabels@),
            urls: strs_view(self.urls@),
            data_quality: self.data_quality@,
        }
    }
}

impl Clone for Label {
    fn clone(&self) -> (res: Self)
        ensures
            res@ == self@,
    {
        Label {
            id: self.id,
            name: self.name.clone(),
            contactinfo: self.contactinfo.clone(),
            profile: self.profile.clone(),
            parent_label: self.parent_label.clone(),
            sublabels: clone_strings(&self.sublabels),
            urls: clone_strings(&self.urls),
            data_quality: self.data_quality.clone(),
        }
    }
}

/// The label record every field defaults to.
pub open spec fn label_default() -> LabelV {
    LabelV {
        id: 0,
        name: Seq::empty(),
        contactinfo: Seq::empty(),
        profile: Seq::empty(),
        parent_label: Seq::empty(),
        sublabels: Seq::empty(),
        urls: Seq::empty(),
        data_quality: Seq::empty(),
    }
}

impl Label {
    /// A fresh label record with every field at its default.
    pub fn new() -> (r: Self)
        ensures
            r@ == label_default(),
    {
        let r = Label {
            id: 0,
            name: String::new(),
            contactinfo: String::new(),
            profile: String::new(),
            parent_label: String::new(),
            sublabels: Vec::new(),
            urls: Vec::new(),
            data_quality: String::new(),
        };
        proof {
            assert(strs_view(Seq::<String>::empty()) =~= Seq::<Seq<char>>::empty());
        }
        r
    }
}

/// The column tuple of a label row, in `label` column order.
pub open spec fn label_row(l: LabelV) -> Seq<SqlValueV> {
    seq![
        SqlValueV::Integer(l.id),
        SqlValueV::Text(l.name),
        SqlValueV::Text(l.contactinfo),
        SqlValueV::Text(l.profile),
        SqlValueV::Text(l.parent_label),
        SqlValueV::TextArray(l.sublabels),
        SqlValueV::TextArray(l.urls),
        SqlValueV::Text(l.data_quality),
    ]
}

impl SqlSerialization for Label {
    open spec fn row_spec(v: LabelV) -> Seq<SqlValueV> {
        label_row(v)
    }

    fn to_sql(&self) -> (r: Vec<SqlValue>)
        ensures
            sql_values_view(r@) == label_row(self@),
    {
        let mut r: Vec<SqlValue> = Vec::new();
        r.push(SqlValue::Integer(self.id));
        r.push(SqlValue::Text(self.name.clone()));
        r.push(SqlValue::Text(self.contactinfo.clone()));
        r.push(SqlValue::Text(self.profile.clone()));
        r.push(SqlValue::Text(self.parent_label.clone()));
        r.push(SqlValue::TextArray(clone_strings(&self.sublabels)));
        r.push(SqlValue::TextArray(clone_strings(&self.urls)));
        r.push(SqlValue::Text(self.data_quality.clone()));
        proof {
            assert(sql_values_view(r@) =~= label_row(self@));
        }
        r
    }
}

/// Mathematical image of a [`Master`].
pub ghost struct MasterV {
    pub id: i32,
    pub title: Seq<char>,
    pub release_id: i32,
    pub year: i32,
    pub notes: Seq<char>,
    pub genres: Seq<Seq<char>>,
    pub styles: Seq<Seq<char>>,
    pub data_quality: Seq<char>,
}

/// One row of the `master` table.
#[derive(Debug, PartialEq)]
pub struct Master {
    pub id: i32,
    pub title: String,
    pub release_id: i32,
    pub year: i32,
    pub notes: String,
    pub genres: Vec<String>,
    pub styles: Vec<String>,
    pub data_quality: String,
}

impl View for Master {
    type V = MasterV;

    open spec fn view(&self) -> MasterV {
        MasterV {
            id: self.id,
            title: self.title@,
            release_id: self.release_id,
            year: self.year,
            notes: self.notes@,
            genres: strs_view(self.genres@),
            styles: strs_view(self.styles@),
            data_quality: self.data_quality@,
        }
    }
}

impl Clone for Master {
    fn clone(&self) -> (res: Self)
        ensures
            res@ == self@,
    {
        Master {
            id: self.id,
            title: self.title.clone(),
            release_id: self.release_id,
            year: self.year,
            notes: self.notes.clone(),
            genres: clone_strings(&self.genres),
            styles: clone_strings(&self.styles),
            data_quality: self.data_quality.clone(),
        }
    }
}

/// The master record every field defaults to.
pub open spec fn master_default() -> MasterV {
    MasterV {
        id: 0,
        title: Seq::empty(),
        release_id: 0,
        year: 0,
        notes: Seq::empty(),
        genres: Seq::empty(),
        styles: Seq::empty(),
        data_quality: Seq::empty(),
    }
}

impl Master {
    /// A fresh master record with every field at its default.
    pub fn new() -> (r: Self)
        ensures
            r@ == master_default(),
    {
        let r = Master {
            id: 0,
            title: String::new(),
            release_id: 0,
            year: 0,
            notes: String::new(),
            genres: Vec::new(),
            styles: Vec::new(),
            data_quality: String::new(),
        };
        proof {
            assert(strs_view(Seq::<String>::empty()) =~= Seq::<Seq<char>>::empty());
        }
        r
    }
}

/// The column tuple of a master row, in `master` column order.
pub open spec fn master_row(m: MasterV) -> Seq<SqlValueV> {
    seq![
        SqlValueV::Integer(m.id),
        SqlValueV::Text(m.title),
        SqlValueV::Integer(m.release_id),
        SqlValueV::Integer(m.year),
        SqlValueV::Text(m.notes),
        SqlValueV::TextArray(m.genres),
        SqlValueV::TextArray(m.styles),
        SqlValueV::Text(m.data_quality),
    ]
}

impl SqlSerialization for Master {
    open spec fn row_spec(v: MasterV) -> Seq<SqlValueV> {
        master_row(v)
    }

    fn to_sql(&self) -> (r: Vec<SqlValue>)
        ensures
            sql_values_view(r@) == master_row(self@),
    {
        let mut r: Vec<SqlValue> = Vec::new();
        r.push(SqlValue::Integer(self.id));
        r.push(SqlValue::Text(self.title.clone()));
        r.push(SqlValue::Integer(self.release_id));
        r.push(SqlValue::Integer(self.year));
        r.push(SqlValue::Text(self.notes.clone()));
        r.push(SqlValue::TextArray(clone_strings(&self.genres)));
        r.push(SqlValue::TextArray(clone_strings(&self.styles)));
        r.push(SqlValue::Text(self.data_quality.clone()));
        proof {
            assert(sql_values_view(r@) =~= master_row(self@));
        }
        r
    }
}

/// Mathematical image of a [`MasterArtist`].
pub ghost struct MasterArtistV {
    pub id: i32,
    pub master_id: i32,
    pub name: Seq<char>,
    pub anv: Seq<char>,
    pub role: Seq<char>,
}

/// One row of the `master_artist` table: one credited artist of a master.
#[derive(Debug, PartialEq)]
pub struct MasterArtist {
    pub id: i32,
    pub master_id: i32,
    pub name: String,
    pub anv: String,
    pub role: String,
}

impl View for MasterArtist {
    type V = MasterArtistV;

    open spec fn view(&self) -> MasterArtistV {
        MasterArtistV {
            id: self.id,
            master_id: self.master_id,
            name: self.name@,
            anv: self.anv@,
            role: self.role@,
        }
    }
}

impl Clone for MasterArtist {
    fn clone(&self) -> (res: Self)
        ensures
            res@ == self@,
    {
        MasterArtist {
            id: self.id,
            master_id: self.master_id,
            name: self.name.clone(),
            anv: self.anv.clone(),
            role: self.role.clone(),
        }
    }
}

/// The master-artist record every field defaults to.
pub open spec fn master_artist_default() -> MasterArtistV {
    MasterArtistV {
        id: 0,
        master_id: 0,
        name: Seq::empty(),
        anv: Seq::empty(),
        role: Seq::empty(),
    }
}

impl MasterArtist {
    /// A fresh master-artist record with every field at its default.
    pub fn new() -> (r: Self)
        ensures
            r@ == master_artist_default(),
    {
        MasterArtist {
            id: 0,
            master_id: 0,
            name: String::new(),
            anv: String::new(),
            role: String::new(),
        }
    }
}

/// The column tuple of a master-artist row, in `master_artist` column order.
pub open spec fn master_artist_row(a: MasterArtistV) -> Seq<SqlValueV> {
    seq![
        SqlValueV::Integer(a.id),
        SqlValueV::Integer(a.master_id),
        SqlValueV::Text(a.name),
        SqlValueV::Text(a.anv),
        SqlValueV::Text(a.role),
    ]
}

impl SqlSerialization for MasterArtist {
    open spec fn row_spec(v: MasterArtistV) -> Seq<SqlValueV> {
        master_artist_row(v)
    }

    fn to_sql(&self) -> (r: Vec<SqlValue>)
        ensures
            sql_values_view(r@) == master_artist_row(self@),
    {
        let mut r: Vec<SqlValue> = Vec::new();
        r.push(SqlValue::Integer(self.id));
        r.push(SqlValue::Integer(self.master_id));
        r.push(SqlValue::Text(self.name.clone()));
        r.push(SqlValue::Text(self.anv.clone()));
        r.push(SqlValue::Text(self.role.clone()));
        proof {
            assert(sql_values_view(r@) =~= master_artist_row(self@));
        }
        r
    }
}

/// Mathematical image of a [`Release`].
pub ghost struct ReleaseV {
    pub id: i32,
    pub status: Seq<char>,
    pub title: Seq<char>,
    pub country: Seq<char>,
    pub released: Seq<char>,
    pub notes: Seq<char>,
    pub genres: Seq<Seq<char>>,
    pub styles: Seq<Seq<char>>,
    pub master_id: i32,
    pub data_quality: Seq<char>,
}

/// One row of the `release` table.
#[derive(Debug, PartialEq)]
pub struct Release {
    pub id: i32,
    pub status: String,
    pub title: String,
    pub country: String,
    pub released: String,
    pub notes: String,
    pub genres: Vec<String>,
    pub styles: Vec<String>,
    pub master_id: i32,
    pub data_quality: String,
}

impl View for Release {
    type V = ReleaseV;

    open spec fn view(&self) -> ReleaseV {
        ReleaseV {
            id: self.id,
            status: self.status@,
            title: self.title@,
            country: self.country@,
            released: self.released@,
            notes: self.notes@,
            genres: strs_view(self.genres@),
            styles: strs_view(self.styles@),
            master_id: self.master_id,
            data_quality: self.data_quality@,
        }
    }
}

impl Clone for Release {
    fn clone(&self) -> (res: Self)
        ensures
            res@ == self@,
    {
        Release {
            id: self.id,
            status: self.status.clone(),
            title: self.title.clone(),
            country: self.country.clone(),
            released: self.released.clone(),
            notes: self.notes.clone(),
            genres: clone_strings(&self.genres),
            styles: clone_strings(&self.styles),
            master_id: self.master_id,
            data_quality: self.data_quality.clone(),
        }
    }
}

/// The release record every field defaults to.
pub open spec fn release_default() -> ReleaseV {
    ReleaseV {
        id: 0,
        status: Seq::empty(),
        title: Seq::empty(),
        country: Seq::empty(),
        released: Seq::empty(),
        notes: Seq::empty(),
        genres: Seq::empty(),
        styles: Seq::empty(),
        master_id: 0,
        data_quality: Seq::empty(),
    }
}

impl Release {
    /// A fresh release record with every field at its default.
    pub fn new() -> (r: Self)
        ensures
            r@ == release_default(),
    {
        let r = Release {
            id: 0,
            status: String::new(),
            title: String::new(),
            country: String::new(),
            released: String::new(),
            notes: String::new(),
            genres: Vec::new(),
            styles: Vec::new(),
            master_id: 0,
            data_quality: String::new(),
        };
        proof {
            assert(strs_view(Seq::<String>::empty()) =~= Seq::<Seq<char>>::empty());
        }
        r
    }
}

/// The column tuple of a release row, in `release` column order.
pub open spec fn release_row(r: ReleaseV) -> Seq<SqlValueV> {
    seq![
        SqlValueV::Integer(r.id),
        SqlValueV::Text(r.status),
        SqlValueV::Text(r.title),
        SqlValueV::Text(r.country),
        SqlValueV::Text(r.released),
        SqlValueV::Text(r.notes),
        SqlValueV::TextArray(r.genres),
        SqlValueV::TextArray(r.styles),
        SqlValueV::Integer(r.master_id),
        SqlValueV::Text(r.data_quality),
    ]
}

impl SqlSerialization for Release {
    open spec fn row_spec(v: ReleaseV) -> Seq<SqlValueV> {
        release_row(v)
    }

    fn to_sql(&self) -> (r: Vec<SqlValue>)
        ensures
            sql_values_view(r@) == release_row(self@),
    {
        let mut r: Vec<SqlValue> = Vec::new();
        r.push(SqlValue::Integer(self.id));
        r.push(SqlValue::Text(self.status.clone()));
        r.push(SqlValue::Text(self.title.clone()));
        r.push(SqlValue::Text(self.country.clone()));
        r.push(SqlValue::Text(self.released.clone()));
        r.push(SqlValue::Text(self.notes.clone()));
        r.push(SqlValue::TextArray(clone_strings(&self.genres)));
        r.push(SqlValue::TextArray(clone_strings(&self.styles)));
        r.push(SqlValue::Integer(self.master_id));
        r.push(SqlValue::Text(self.data_quality.clone()));
        proof {
            assert(sql_values_view(r@) =~= release_row(self@));
        }
        r
    }
}

/// Mathematical image of a [`ReleaseLabel`].
pub ghost struct ReleaseLabelV {
    pub release_id: i32,
    pub label: Seq<char>,
    pub catno: Seq<char>,
    pub label_id: i32,
}

/// One row of the `release_label` table: one label credit of a release.
#[derive(Debug, PartialEq)]
pub struct ReleaseLabel {
    pub release_id: i32,
    pub label: String,
    pub catno: String,
    pub label_id: i32,
}

impl View for ReleaseLabel {
    type V = ReleaseLabelV;

    open spec fn view(&self) -> ReleaseLabelV {
        ReleaseLabelV {
            release_id: self.release_id,
            label: self.label@,
            catno: self.catno@,
            label_id: self.label_id,
        }
    }
}

impl Clone for ReleaseLabel {
    fn clone(&self) -> (res: Self)
        ensures
            res@ == self@,
    {
        ReleaseLabel {
            release_id: self.release_id,
            label: self.label.clone(),
            catno: self.catno.clone(),
            label_id: self.label_id,
        }
    }
}

/// The release-label record every field defaults to.
pub open spec fn release_label_default() -> ReleaseLabelV {
    ReleaseLabelV { release_id: 0, label: Seq::empty(), catno: Seq::empty(), label_id: 0 }
}

impl ReleaseLabel {
    /// A fresh release-label record with every field at its default.
    pub fn new() -> (r: Self)
        ensures
            r@ == release_label_default(),
    {
        ReleaseLabel { release_id: 0, label: String::new(), catno: String::new(), label_id: 0 }
    }
}

/// The column tuple of a release-label row, in `release_label` column order.
pub open spec fn release_label_row(l: ReleaseLabelV) -> Seq<SqlValueV> {
    seq![
        SqlValueV::Integer(l.release_id),
        SqlValueV::Text(l.label),
        SqlValueV::Text(l.catno),
        SqlValueV::Integer(l.label_id),
    ]
}

impl SqlSerialization for ReleaseLabel {
    open spec fn row_spec(v: ReleaseLabelV) -> Seq<SqlValueV> {
        release_label_row(v)
    }

    fn to_sql(&self) -> (r: Vec<SqlValue>)
        ensures
            sql_values_view(r@) == release_label_row(self@),
    {
        let mut r: Vec<SqlValue> = Vec::new();
        r.push(SqlValue::Integer(self.release_id));
        r.push(SqlValue::Text(self.label.clone()));
        r.push(SqlValue::Text(self.catno.clone()));
        r.push(SqlValue::Integer(self.label_id));
        proof {
            assert(sql_values_view(r@) =~= release_label_row(self@));
        }
        r
    }
}

/// Mathematical image of a [`ReleaseVideo`].
pub ghost struct ReleaseVideoV {
    pub release_id: i32,
    pub duration: i32,
    pub src: Seq<char>,
    pub title: Seq<char>,
}

/// One row of the `release_video` table: one video credit of a release.
#[derive(Debug, PartialEq)]
pub struct ReleaseVideo {
    pub release_id: i32,
    pub duration: i32,
    pub src: String,
    pub title: String,
}

impl View for ReleaseVideo {
    type V = ReleaseVideoV;

    open spec fn view(&self) -> ReleaseVideoV {
        ReleaseVideoV {
            release_id: self.release_id,
            duration: self.duration,
            src: self.src@,
            title: self.title@,
        }
    }
}

impl Clone for ReleaseVideo {
    fn clone(&self) -> (res: Self)
        ensures
            res@ == self@,
    {
        ReleaseVideo {
            release_id: self.release_id,
            duration: self.duration,
            src: self.src.clone(),
            title: self.title.clone(),
        }
    }
}

/// The column tuple of a release-video row, in `release_video` column order.
pub open spec fn release_video_row(v: ReleaseVideoV) -> Seq<SqlValueV> {
    seq![
        SqlValueV::Integer(v.release_id),
        SqlValueV::Integer(v.duration),
        SqlValueV::Text(v.src),
        SqlValueV::Text(v.title),
    ]
}

impl SqlSerialization for ReleaseVideo {
    open spec fn row_spec(v: ReleaseVideoV) -> Seq<SqlValueV> {
        release_video_row(v)
    }

    fn to_sql(&self) -> (r: Vec<SqlValue>)
        ensures
            sql_values_view(r@) == release_video_row(self@),
    {
        let mut r: Vec<SqlValue> = Vec::new();
        r.push(SqlValue::Integer(self.release_id));
        r.push(SqlValue::Integer(self.duration));
        r.push(SqlValue::Text(self.src.clone()));
        r.push(SqlValue::Text(self.title.clone()));
        proof {
            assert(sql_values_view(r@) =~= release_video_row(self@));
        }
        r
    }
}

} // verus!
