//! The record that goes with an exported column family: the name of its
//! comparator and the list of its live files.

use crate::c_string::NulTerminated;
use crate::error::MetadataError;
use crate::live_file::lemma_live_file_round_trip;
use crate::live_file::LiveFile;
use crate::live_file::LiveFileView;
use crate::live_file::RawLiveFile;
use crate::live_file::RawLiveFileView;
use crate::text::fits_c_string;
use crate::text::lemma_text_of_encoding;
use crate::text::text_of;
use vstd::prelude::*;
use vstd::utf8::encode_utf8;

verus! {

/// Metadata for column family import/export.
///
/// The record is kept in the form that the storage engine holds: the
/// comparator's name as a zero-ended string, and each file as a
/// [`RawLiveFile`]. The getters hand out owned copies in plain form.
#[derive(Debug)]
pub struct ExportImportFilesMetaData {
    db_comparator_name: NulTerminated,
    files: Vec<RawLiveFile>,
}

/// What an [`ExportImportFilesMetaData`] holds.
pub struct MetaDataView {
    /// The bytes of the comparator's name.
    pub raw_comparator_name: Seq<u8>,
    /// The files, in the order in which they were listed.
    pub raw_files: Seq<RawLiveFileView>,
}

impl MetaDataView {
    /// The record that a new [`ExportImportFilesMetaData`] holds.
    pub open spec fn empty() -> MetaDataView {
        MetaDataView { raw_comparator_name: Seq::empty(), raw_files: Seq::empty() }
    }

    /// The comparator's name, as the getter reads it.
    pub open spec fn db_comparator_name(self) -> Seq<char> {
        text_of(self.raw_comparator_name)
    }

    /// The files, as the getter reads them.
    pub open spec fn files(self) -> Seq<LiveFileView> {
        self.raw_files.map_values(|raw: RawLiveFileView| raw.to_live_file())
    }

    /// The record after `name` has been stored as the comparator's name.
    pub open spec fn with_db_comparator_name(self, name: Seq<char>) -> MetaDataView {
        MetaDataView { raw_comparator_name: encode_utf8(name), raw_files: self.raw_files }
    }

    /// The record after `files` have been stored in place of its files.
    pub open spec fn with_files(self, files: Seq<LiveFileView>) -> MetaDataView {
        MetaDataView {
            raw_comparator_name: self.raw_comparator_name,
            raw_files: files.map_values(|file: LiveFileView| file.to_raw()),
        }
    }
}

/// Whether each of `files` can be handed over.
pub open spec fn all_can_cross(files: Seq<LiveFileView>) -> bool {
    forall|i: int| 0 <= i < files.len() ==> (#[trigger] files[i]).can_cross()
}

impl View for ExportImportFilesMetaData {
    type V = MetaDataView;

    closed spec fn view(&self) -> MetaDataView {
        MetaDataView {
            raw_comparator_name: self.db_comparator_name@,
            raw_files: self.files.deep_view(),
        }
    }
}

impl Default for ExportImportFilesMetaData {
    /// A record with an empty comparator name and no files.
    fn default() -> (res: ExportImportFilesMetaData)
        ensures
            res@ == MetaDataView::empty(),
    {
        let res = ExportImportFilesMetaData {
            db_comparator_name: NulTerminated::empty(),
            files: Vec::new(),
        };
        assert(res.files.deep_view() =~= Seq::<RawLiveFileView>::empty());
        res
    }
}

impl ExportImportFilesMetaData {
    /// The record that holds what the storage engine handed out.
    pub fn from_raw_parts(
        db_comparator_name: NulTerminated,
        files: Vec<RawLiveFile>,
    ) -> (res: ExportImportFilesMetaData)
        ensures
            res@.raw_comparator_name == db_comparator_name@,
            res@.raw_files == files.deep_view(),
    {
        ExportImportFilesMetaData { db_comparator_name, files }
    }

    /// The comparator's name in the form that the storage engine is handed.
    pub fn raw_db_comparator_name(&self) -> (res: &NulTerminated)
        ensures
            res@ == self@.raw_comparator_name,
    {
        &self.db_comparator_name
    }

    /// The files in the form that the storage engine is handed.
    pub fn raw_files(&self) -> (res: &Vec<RawLiveFile>)
        ensures
            res.deep_view() == self@.raw_files,
    {
        &self.files
    }

    /// The name of the comparator, as an owned string. An empty name is a
    /// name like any other: the record has no state without one.
    pub fn get_db_comparator_name(&self) -> (name: String)
        ensures
            name@ == self@.db_comparator_name(),
    {
        self.db_comparator_name.to_string_lossy()
    }

    /// Stores `name` as the comparator's name, in place of the earlier one.
    /// Fails where `name` holds a zero byte, and then leaves the record as
    /// it was.
    pub fn set_db_comparator_name(&mut self, name: &str) -> (res: Result<(), MetadataError>)
        ensures
            res is Ok <==> fits_c_string(name@),
            res is Ok <==> !name@.contains('\0'),
            res is Ok ==> final(self)@ == old(self)@.with_db_comparator_name(name@),
            res is Ok ==> final(self)@.db_comparator_name() == name@,
            res is Ok ==> final(self)@.files() == old(self)@.files(),
            res is Err ==> *final(self) == *old(self),
            res matches Err(e) ==> e == MetadataError::InvalidArgument,
    {
        let raw = NulTerminated::new(name)?;
        self.db_comparator_name = raw;
        proof {
            lemma_text_of_encoding(name@);
        }
        Ok(())
    }

    /// The files, in the order in which they were stored, as owned values:
    /// they share nothing with the record, so whatever is done to them
    /// later leaves the record, and what it next hands out, as it was.
    pub fn get_files(&self) -> (files: Vec<LiveFile>)
        ensures
            files.deep_view() == self@.files(),
    {
        let mut files: Vec<LiveFile> = Vec::new();
        let mut i: usize = 0;
        while i < self.files.len()
            invariant
                i <= self.files@.len(),
                files@.len() == i,
                forall|j: int|
                    0 <= j < i ==> (#[trigger] files@[j])@ == self.files@[j]@.to_live_file(),
            decreases self.files@.len() - i,
        {
            let file = self.files[i].to_live_file();
            files.push(file);
            i += 1;
        }
        assert(files.deep_view() =~= self@.files());
        files
    }

    /// Stores `files`, in their order, in place of the earlier files. Fails
    /// where a string of one of them holds a zero byte, and then leaves the
    /// record as it was: the earlier files are replaced by all of `files` or
    /// not at all.
    pub fn set_files(&mut self, files: &Vec<LiveFile>) -> (res: Result<(), MetadataError>)
        ensures
            res is Ok <==> all_can_cross(files.deep_view()),
            res is Ok ==> final(self)@ == old(self)@.with_files(files.deep_view()),
            res is Ok ==> final(self)@.files() == files.deep_view(),
            res is Ok ==> final(self)@.db_comparator_name() == old(self)@.db_comparator_name(),
            res is Err ==> *final(self) == *old(self),
            res matches Err(e) ==> e == MetadataError::InvalidArgument,
    {
        let mut raw_files: Vec<RawLiveFile> = Vec::new();
        let mut i: usize = 0;
        while i < files.len()
            invariant
                i <= files@.len(),
                raw_files@.len() == i,
                forall|j: int| 0 <= j < i ==> (#[trigger] files@[j])@.can_cross(),
                forall|j: int| 0 <= j < i ==> (#[trigger] raw_files@[j])@ == files@[j]@.to_raw(),
                *self == *old(self),
            decreases files@.len() - i,
        {
            match RawLiveFile::from_live_file(&files[i]) {
                Ok(raw) => {
                    raw_files.push(raw);
                },
                Err(e) => {
                    assert(!files.deep_view()[i as int].can_cross());
                    return Err(e);
                },
            }
            i += 1;
        }
        self.files = raw_files;
        proof {
            let stored = files.deep_view();
            assert(all_can_cross(stored)) by {
                assert forall|j: int| 0 <= j < stored.len() implies (#[trigger] stored[j]).can_cross()
                by {
                    assert(files@[j]@.can_cross());
                }
            }
            assert(self@.raw_files =~= old(self)@.with_files(stored).raw_files);
            lemma_files_round_trip(old(self)@, stored);
        }
        Ok(())
    }
}

/// Files that were stored are the files that are read back, each field of
/// each and in the same order, and the comparator's name is what it was.
pub proof fn lemma_files_round_trip(record: MetaDataView, files: Seq<LiveFileView>)
    requires
        all_can_cross(files),
    ensures
        record.with_files(files).files() == files,
        record.with_files(files).db_comparator_name() == record.db_comparator_name(),
{
    let read = record.with_files(files).files();
    assert forall|i: int| 0 <= i < files.len() implies read[i] == files[i] by {
        lemma_live_file_round_trip(files[i]);
    }
    assert(read =~= files);
}

/// A comparator name that was stored is the name that is read back, the
/// empty name too, and the files are what they were.
pub proof fn lemma_comparator_name_round_trip(record: MetaDataView, name: Seq<char>)
    requires
        fits_c_string(name),
    ensures
        record.with_db_comparator_name(name).db_comparator_name() == name,
        record.with_db_comparator_name(name).files() == record.files(),
{
    lemma_text_of_encoding(name);
}

/// Storing the same value twice leaves the record as storing it once.
pub proof fn lemma_setters_idempotent(
    record: MetaDataView,
    name: Seq<char>,
    files: Seq<LiveFileView>,
)
    ensures
        record.with_db_comparator_name(name).with_db_comparator_name(name)
            == record.with_db_comparator_name(name),
        record.with_files(files).with_files(files) == record.with_files(files),
{
}

} // verus!
