//! A parsed log: its layout, its details and its record stream.
use vstd::prelude::*;

use crate::error::{Error, Result};
use crate::keychain::api::KeychainsRequest;
use crate::keychain::{
    base64_encode, base64_standard_encode, EncodedKeychainFeaturePoint, FeaturePoint,
    KeychainFeaturePoint,
};
use crate::layout::auxiliary::{
    lemma_department_codes, read_auxiliary, spec_read_auxiliary, Auxiliary, AuxiliaryView, Department,
};
use crate::layout::details::{details_size, Details};
use crate::record::{Record, RecordView};
use crate::stream::{next_keychain, read_records, record_views, spec_records};
use crate::utils::{pad_with_zeros, slice_range, spec_pad_with_zeros};

verus! {

/// Where the parts of a log lie, as its prefix block gives them.
#[derive(Debug, Clone, Copy)]
pub struct Prefix {
    /// Log format version.
    pub version: u8,
    /// Position of the details block (of the auxiliary blocks from format 13).
    pub detail_offset: u64,
    /// Position of the first record; 0 where the prefix does not give it, in
    /// which case the records follow the auxiliary blocks.
    pub records_offset: u64,
    /// Position where the records end; `None` where they run to the end of
    /// the file.
    pub records_end_offset: Option<u64>,
}

impl Prefix {
    /// Position where the records of a file of `file_size` bytes end.
    pub open spec fn spec_records_end_offset(self, file_size: u64) -> u64 {
        match self.records_end_offset {
            Some(e) => e,
            None => file_size,
        }
    }

    /// Position where the records of a file of `file_size` bytes end.
    pub fn records_end_offset(&self, file_size: u64) -> (r: u64)
        ensures
            r == self.spec_records_end_offset(file_size),
    {
        match self.records_end_offset {
            Some(e) => e,
            None => file_size,
        }
    }
}

/// How the blocks after the prefix read.
pub enum LayoutView {
    /// A block cannot be read.
    Failed,
    /// The first auxiliary block is not an info block.
    NoInfo,
    /// The details block is read from `details`, and the records start at
    /// `records_offset`.
    Read { details: Seq<u8>, records_offset: int },
}

/// The bytes from the details offset on, padded with zeros to 400 bytes.
pub open spec fn detail_area(bytes: Seq<u8>, prefix: Prefix) -> Seq<u8> {
    spec_pad_with_zeros(bytes.subrange(prefix.detail_offset as int, bytes.len() as int), 400)
}

/// Reads the blocks after the prefix: up to format 12 the details block
/// itself; from format 13 an info block whose data is the details block,
/// followed by a version block after which the records start when the
/// prefix does not say where they do.
pub open spec fn spec_layout(bytes: Seq<u8>, prefix: Prefix) -> LayoutView {
    let area = detail_area(bytes, prefix);
    let version = prefix.version;
    if version < 13 {
        LayoutView::Read { details: area, records_offset: prefix.records_offset as int }
    } else {
        match spec_read_auxiliary(area, 0) {
            None => LayoutView::Failed,
            Some((AuxiliaryView::Version { .. }, _)) => LayoutView::NoInfo,
            Some((AuxiliaryView::Info { info_data, .. }, e1)) => if info_data.len() < details_size(
                version,
            ) {
                LayoutView::Failed
            } else if prefix.records_offset != 0 {
                LayoutView::Read { details: info_data, records_offset: prefix.records_offset as int }
            } else {
                match spec_read_auxiliary(area, e1) {
                    None => LayoutView::Failed,
                    Some((_, e2)) => if prefix.detail_offset + e2 > u64::MAX {
                        LayoutView::Failed
                    } else {
                        LayoutView::Read { details: info_data, records_offset: prefix.detail_offset + e2 }
                    },
                }
            },
        }
    }
}


/// The key storage entries of a list of records, split at each recovery
/// marker: the groups closed so far and the group being filled.
pub open spec fn key_groups_from(recs: Seq<RecordView>) -> (
    Seq<Seq<(FeaturePoint, Seq<u8>)>>,
    Seq<(FeaturePoint, Seq<u8>)>,
)
    decreases recs.len(),
{
    if recs.len() == 0 {
        (Seq::empty(), Seq::empty())
    } else {
        let (done, cur) = key_groups_from(recs.drop_last());
        match recs.last() {
            RecordView::KeyStorage(entry) => (done, cur.push(entry)),
            RecordView::KeyStorageRecover(_) => (done.push(cur), Seq::empty()),
            _ => (done, cur),
        }
    }
}

/// The key storage entries of a list of records, one group for each part
/// of the log between recovery markers.
pub open spec fn key_groups(recs: Seq<RecordView>) -> Seq<Seq<(FeaturePoint, Seq<u8>)>> {
    let (done, cur) = key_groups_from(recs);
    done.push(cur)
}

/// A key storage entry as the keychain service takes it: the encrypted key
/// material in base64.
pub open spec fn encoded_entry(e: (FeaturePoint, Seq<u8>)) -> (FeaturePoint, Seq<char>) {
    (e.0, base64_standard_encode(e.1))
}

/// A group of key storage entries as the keychain service takes them.
pub open spec fn encoded_group(g: Seq<(FeaturePoint, Seq<u8>)>) -> Seq<(FeaturePoint, Seq<char>)> {
    g.map_values(|e: (FeaturePoint, Seq<u8>)| encoded_entry(e))
}

/// The groups of a keychain request, as values.
pub open spec fn entry_view(e: EncodedKeychainFeaturePoint) -> (FeaturePoint, Seq<char>) {
    (e.feature_point, e.aes_ciphertext@)
}

/// A group of a keychain request, as values.
pub open spec fn group_view(g: Seq<EncodedKeychainFeaturePoint>) -> Seq<(FeaturePoint, Seq<char>)> {
    g.map_values(|e: EncodedKeychainFeaturePoint| entry_view(e))
}

/// The groups of a keychain request, as values.
pub open spec fn groups_view(v: Seq<Vec<EncodedKeychainFeaturePoint>>) -> Seq<
    Seq<(FeaturePoint, Seq<char>)>,
> {
    v.map_values(|g: Vec<EncodedKeychainFeaturePoint>| group_view(g@))
}

/// The department sent to the keychain service: the one asked for, else
/// the one the log names, with DJI Fly for a department it does not know.
pub open spec fn request_department(asked: Option<Department>, logged: Department) -> u8 {
    match asked {
        Some(d) => d.spec_code(),
        None => match logged {
            Department::Unknown(_) => Department::DJIFly.spec_code(),
            _ => logged.spec_code(),
        },
    }
}

/// The department code that a keychain request sends: the code of the
/// department asked for (SDK 1, DJI GO 2, DJI Fly 3, ..., GS Pro 8, an
/// unknown one its own code); when none is asked for, that of the logged
/// department, and DJI Fly's code 3 where the logged one is unknown.
pub proof fn lemma_request_department(asked: Department, logged: Department, code: u8)
    ensures
        request_department(Some(Department::SDK), logged) == 1,
        request_department(Some(Department::DJIGO), logged) == 2,
        request_department(Some(Department::DJIFly), logged) == 3,
        request_department(Some(Department::AgriculturalMachinery), logged) == 4,
        request_department(Some(Department::Terra), logged) == 5,
        request_department(Some(Department::DJIGlasses), logged) == 6,
        request_department(Some(Department::DJIPilot), logged) == 7,
        request_department(Some(Department::GSPro), logged) == 8,
        request_department(Some(Department::Unknown(code)), logged) == code,
        request_department(None, Department::Unknown(code)) == 3,
        request_department(None, Department::spec_from_code(code)) == if 1 <= code <= 8 {
            code
        } else {
            3
        },
{
    lemma_department_codes(code);
}

/// What a keychain request for a log comes to.
pub enum RequestView {
    /// Logs before format 13 need no keychains: an empty request.
    Plain,
    /// A block or a record payload cannot be read.
    Failed,
    /// The second auxiliary block is not a version block.
    NoVersion,
    /// The request to send.
    Request { version: u16, department: u8, groups: Seq<Seq<(FeaturePoint, Seq<char>)>> },
}

/// The keychain request of a log: the version and department of its version
/// block (or those asked for), and the key storage entries of its records,
/// read without keychains, grouped by recovery markers.
pub open spec fn spec_keychains_request(
    bytes: Seq<u8>,
    detail_start: int,
    records_start: int,
    records_end: int,
    version: u8,
    department: Option<Department>,
    version_asked: Option<u16>,
) -> RequestView {
    if version < 13 {
        RequestView::Plain
    } else {
        match spec_read_auxiliary(bytes, detail_start) {
            None => RequestView::Failed,
            Some((_, e0)) => match spec_read_auxiliary(bytes, e0) {
                None => RequestView::Failed,
                Some((AuxiliaryView::Info { .. }, _)) => RequestView::NoVersion,
                Some((AuxiliaryView::Version { version: v, department: logged }, _)) => {
                    match spec_records(
                        bytes,
                        records_start,
                        records_end,
                        version,
                        Map::empty(),
                        Seq::empty(),
                        0,
                    ) {
                        None => RequestView::Failed,
                        Some(recs) => RequestView::Request {
                            version: match version_asked {
                                Some(x) => x,
                                None => v,
                            },
                            department: request_department(department, logged),
                            groups: key_groups(recs).map_values(
                                |g: Seq<(FeaturePoint, Seq<u8>)>| encoded_group(g),
                            ),
                        },
                    }
                },
            },
        }
    }
}

/// Groups the key storage entries of `recs` by recovery markers, encoding
/// each entry's data in base64 (see `key_groups`).
pub fn group_key_storage(recs: &Vec<Record>) -> (r: Vec<Vec<EncodedKeychainFeaturePoint>>)
    ensures
        groups_view(r@) == key_groups(record_views(recs@)).map_values(
            |g: Seq<(FeaturePoint, Seq<u8>)>| encoded_group(g),
        ),
{
    let mut done: Vec<Vec<EncodedKeychainFeaturePoint>> = Vec::new();
    let mut cur: Vec<EncodedKeychainFeaturePoint> = Vec::new();
    let mut i: usize = 0;
    proof {
        assert(record_views(recs@).take(0) =~= Seq::<RecordView>::empty());
        assert(groups_view(done@) =~= Seq::<Seq<(FeaturePoint, Seq<u8>)>>::empty().map_values(
            |g: Seq<(FeaturePoint, Seq<u8>)>| encoded_group(g),
        ));
        assert(group_view(cur@) =~= encoded_group(Seq::<(FeaturePoint, Seq<u8>)>::empty()));
    }
    while i < recs.len()
        invariant
            i <= recs@.len(),
            groups_view(done@) == key_groups_from(record_views(recs@).take(i as int)).0.map_values(
                |g: Seq<(FeaturePoint, Seq<u8>)>| encoded_group(g),
            ),
            group_view(cur@) == encoded_group(key_groups_from(record_views(recs@).take(i as int)).1),
        decreases recs.len() - i,
    {
        let ghost prev = key_groups_from(record_views(recs@).take(i as int));
        proof {
            let t = record_views(recs@).take(i + 1);
            assert(t.drop_last() =~= record_views(recs@).take(i as int));
            assert(t.last() == recs@[i as int]@);
        }
        match &recs[i] {
            Record::KeyStorage(ks) => {
                let e = EncodedKeychainFeaturePoint {
                    feature_point: ks.feature_point,
                    aes_ciphertext: base64_encode(ks.data.as_slice()),
                };
                let ghost old_cur = cur@;
                let ghost x = recs@[i as int]@->KeyStorage_0;
                cur.push(e);
                proof {
                    assert(entry_view(e) == encoded_entry(x));
                    assert(group_view(cur@) =~= group_view(old_cur).push(entry_view(e)));
                    assert(encoded_group(prev.1.push(x)) =~= encoded_group(prev.1).push(encoded_entry(x)));
                }
            },
            Record::KeyStorageRecover(_) => {
                let ghost closed = cur@;
                let ghost old_done = done@;
                done.push(cur);
                cur = Vec::new();
                proof {
                    assert(groups_view(done@) =~= groups_view(old_done).push(group_view(closed)));
                    assert(prev.0.push(prev.1).map_values(
                        |g: Seq<(FeaturePoint, Seq<u8>)>| encoded_group(g),
                    ) =~= prev.0.map_values(|g: Seq<(FeaturePoint, Seq<u8>)>| encoded_group(g)).push(
                        encoded_group(prev.1),
                    ));
                    assert(group_view(cur@) =~= encoded_group(Seq::<(FeaturePoint, Seq<u8>)>::empty()));
                }
            },
            _ => {},
        }
        i = i + 1;
    }
    let ghost last = key_groups_from(record_views(recs@).take(i as int));
    let ghost closed = cur@;
    let ghost old_done = done@;
    done.push(cur);
    proof {
        assert(record_views(recs@).take(i as int) =~= record_views(recs@));
        assert(groups_view(done@) =~= groups_view(old_done).push(group_view(closed)));
        assert(last.0.push(last.1).map_values(|g: Seq<(FeaturePoint, Seq<u8>)>| encoded_group(g))
            =~= last.0.map_values(|g: Seq<(FeaturePoint, Seq<u8>)>| encoded_group(g)).push(
            encoded_group(last.1),
        ));
    }
    done
}

/// The bytes of a log file and where its parts lie; read through `DJILog`.
#[derive(Debug)]
pub struct LogSource {
    inner: Vec<u8>,
    prefix: Prefix,
}

/// A log file: its bytes, where its parts lie, its format version and its
/// details.
#[derive(Debug)]
pub struct DJILog {
    /// The bytes of the log and where its parts lie.
    pub source: LogSource,
    /// Log format version.
    pub version: u8,
    /// Log details: the flight summary.
    pub details: Details,
}

impl DJILog {
    /// The bytes of the log file.
    pub closed spec fn bytes(&self) -> Seq<u8> {
        self.source.inner@
    }

    /// The position of the first record.
    pub closed spec fn records_start(&self) -> int {
        self.source.prefix.records_offset as int
    }

    /// The position where the records end.
    pub closed spec fn records_end(&self) -> int {
        self.source.prefix.spec_records_end_offset(self.source.inner@.len() as u64) as int
    }

    /// The position of the auxiliary blocks.
    pub closed spec fn detail_start(&self) -> int {
        self.source.prefix.detail_offset as int
    }

    /// Reads the blocks of a log file after its prefix (see `spec_layout`).
    pub fn from_bytes(bytes: Vec<u8>, prefix: Prefix) -> (r: Result<DJILog>)
        requires
            prefix.detail_offset <= bytes@.len(),
        ensures
            match spec_layout(bytes@, prefix) {
                LayoutView::Failed => r matches Err(Error::Parse),
                LayoutView::NoInfo => r matches Err(Error::MissingAuxilliaryData(m)) && m@ == "Info"@,
                LayoutView::Read { details, records_offset } => r matches Ok(log) && {
                    &&& log.bytes() == bytes@
                    &&& log.version == prefix.version
                    &&& log.details.is_read_from(details, prefix.version)
                    &&& log.records_start() == records_offset
                    &&& log.records_end() == prefix.spec_records_end_offset(bytes@.len() as u64)
                    &&& log.detail_start() == prefix.detail_offset
                },
            },
    {
        let version = prefix.version;
        let d = prefix.detail_offset as usize;
        let area = pad_with_zeros(slice_range(bytes.as_slice(), d, bytes.len()).as_slice(), 400);
        assert(area@ == detail_area(bytes@, prefix));
        if version < 13 {
            let details = match Details::parse(area.as_slice(), version) {
                Some(x) => x,
                None => {
                    return Err(Error::Parse);
                },
            };
            return Ok(DJILog { source: LogSource { inner: bytes, prefix }, version, details });
        }
        let (info, e1) = match read_auxiliary(area.as_slice(), 0) {
            Some((Auxiliary::Info(info), e1)) => (info, e1),
            Some((Auxiliary::Version(_), _)) => {
                return Err(Error::MissingAuxilliaryData("Info".to_string()));
            },
            None => {
                return Err(Error::Parse);
            },
        };
        let details = match Details::parse(info.info_data.as_slice(), version) {
            Some(x) => x,
            None => {
                return Err(Error::Parse);
            },
        };
        let mut layout = prefix;
        if prefix.records_offset == 0 {
            let e2 = match read_auxiliary(area.as_slice(), e1) {
                Some((_, e2)) => e2,
                None => {
                    return Err(Error::Parse);
                },
            };
            match prefix.detail_offset.checked_add(e2 as u64) {
                Some(o) => {
                    layout.records_offset = o;
                },
                None => {
                    return Err(Error::Parse);
                },
            }
        }
        Ok(DJILog { source: LogSource { inner: bytes, prefix: layout }, version, details })
    }

    /// Reads the records of the log (see `spec_records`): the keychains
    /// decode the parts of the log one after the other, the next taking over
    /// at each recovery marker. Logs of format 13 and later cannot be read
    /// without keychains; a payload that cannot be decoded makes the whole
    /// read fail.
    pub fn records(&self, keychains: Option<Vec<Vec<KeychainFeaturePoint>>>) -> (r: Result<
        Vec<Record>,
    >)
        ensures
            self.version >= 13 && keychains is None ==> r matches Err(
                Error::KeychainRequired,
            ),
            !(self.version >= 13 && keychains is None) ==> {
                let chains = match keychains {
                    Some(k) => k@,
                    None => Seq::empty(),
                };
                match spec_records(
                    self.bytes(),
                    self.records_start(),
                    self.records_end(),
                    self.version,
                    next_keychain(chains, 0).0,
                    chains,
                    next_keychain(chains, 0).1,
                ) {
                    Some(s) => r matches Ok(v) && record_views(v@) == s,
                    None => r matches Err(Error::Parse),
                }
            },
    {
        if self.version >= 13 && keychains.is_none() {
            return Err(Error::KeychainRequired);
        }
        let chains = match keychains {
            Some(k) => k,
            None => Vec::new(),
        };
        let end = self.source.prefix.records_end_offset(self.source.inner.len() as u64);
        match read_records(self.source.inner.as_slice(), self.source.prefix.records_offset, end, self.version, &chains) {
            Some(v) => Ok(v),
            None => Err(Error::Parse),
        }
    }

    /// Builds the keychain request of the log (see `spec_keychains_request`);
    /// `department` and `version`, where given, replace those of the log.
    /// Logs before format 13 need no keychains and give an empty request.
    pub fn keychains_request_with_custom_params(
        &self,
        department: Option<Department>,
        version: Option<u16>,
    ) -> (r: Result<KeychainsRequest>)
        ensures
            match spec_keychains_request(
                self.bytes(),
                self.detail_start(),
                self.records_start(),
                self.records_end(),
                self.version,
                department,
                version,
            ) {
                RequestView::Plain => r matches Ok(req) && req.version == 0 && req.department == 0
                    && req.keychains@.len() == 0,
                RequestView::Failed => r matches Err(Error::Parse),
                RequestView::NoVersion => r matches Err(Error::MissingAuxilliaryData(m)) && m@
                    == "Version"@,
                RequestView::Request { version: v, department: d, groups } => r matches Ok(req)
                    && req.version == v && req.department == d && groups_view(req.keychains@)
                    == groups,
            },
    {
        let mut request = KeychainsRequest::default();
        if self.version < 13 {
            return Ok(request);
        }
        if self.source.prefix.detail_offset > self.source.inner.len() as u64 {
            return Err(Error::Parse);
        }
        let e0 = match read_auxiliary(self.source.inner.as_slice(), self.source.prefix.detail_offset as usize) {
            Some((_, e0)) => e0,
            None => {
                return Err(Error::Parse);
            },
        };
        let data = match read_auxiliary(self.source.inner.as_slice(), e0) {
            Some((Auxiliary::Version(data), _)) => data,
            Some((Auxiliary::Info(_), _)) => {
                return Err(Error::MissingAuxilliaryData("Version".to_string()));
            },
            None => {
                return Err(Error::Parse);
            },
        };
        request.version = match version {
            Some(v) => v,
            None => data.version,
        };
        request.department = match department {
            Some(dept) => dept.into(),
            None => match data.department {
                Department::Unknown(_) => Department::DJIFly.into(),
                _ => data.department.into(),
            },
        };
        let end = self.source.prefix.records_end_offset(self.source.inner.len() as u64);
        let no_keychains: Vec<Vec<KeychainFeaturePoint>> = Vec::new();
        let recs = match read_records(
            self.source.inner.as_slice(),
            self.source.prefix.records_offset,
            end,
            self.version,
            &no_keychains,
        ) {
            Some(v) => v,
            None => {
                return Err(Error::Parse);
            },
        };
        proof {
            assert(no_keychains@ =~= Seq::<Vec<KeychainFeaturePoint>>::empty());
        }
        request.keychains = group_key_storage(&recs);
        Ok(request)
    }

    /// Builds the keychain request of the log with the version and
    /// department that the log names.
    pub fn keychains_request(&self) -> (r: Result<KeychainsRequest>)
        ensures
            match spec_keychains_request(
                self.bytes(),
                self.detail_start(),
                self.records_start(),
                self.records_end(),
                self.version,
                None,
                None,
            ) {
                RequestView::Plain => r matches Ok(req) && req.version == 0 && req.department == 0
                    && req.keychains@.len() == 0,
                RequestView::Failed => r matches Err(Error::Parse),
                RequestView::NoVersion => r matches Err(Error::MissingAuxilliaryData(m)) && m@
                    == "Version"@,
                RequestView::Request { version: v, department: d, groups } => r matches Ok(req)
                    && req.version == v && req.department == d && groups_view(req.keychains@)
                    == groups,
            },
    {
        self.keychains_request_with_custom_params(None, None)
    }
}

} // verus!
