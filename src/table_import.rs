//! The chunk writer: a state machine that checks, row by row, that the number of
//! fields written matches the number declared, while the rows stream as msgpack
//! into a gzip compressor.

use vstd::prelude::*;
use vstd::string::StringSliceAdditionalSpecFns;
use crate::msgpack::{
    put_array_len, put_bin, put_bool, put_ext_meta, put_f32_bits, put_f64_bits, put_i16, put_i32,
    put_i64, put_i8, put_map_len, put_nfix, put_nil, put_pfix, put_sint, put_str, put_u16, put_u32,
    put_u64, put_u8, put_uint,
    array_header, f32_enc, f64_enc, bin_enc, bool_enc, ext_header, i16_enc, i32_enc, i64_enc, i8_enc,
    map_header, nfix_enc, nil_enc, pfix_enc, sint_enc, str_enc, u16_enc, u32_enc, u64_enc, u8_enc,
    uint_enc,
};
use crate::sink::{GzSink, gz_input, gz_stream, gz_open, gz_write, gz_finish};

verus! {

/// Where the current row stands: no row begun yet, or a row declared with
/// `capacity` fields of which `added` have been written.
#[derive(Clone, Copy, Debug, PartialEq, Eq, Structural)]
pub enum RowCursor {
    NotStarted,
    Open { capacity: u32, added: u32 },
}

/// A row whose written field count does not match its declared one: the
/// declared and written counts, or `None` when no row had been begun.
#[derive(Clone, Debug, PartialEq, Eq)]
pub struct UnmatchElementNumsError(pub Option<(u32, u64)>);

/// Every way in which building a chunk can fail.
#[derive(Debug)]
pub enum TableImportChunkError {
    /// Storage failed: the compressor could not finish its stream, or scratch
    /// space could not be set up.
    IOError(std::io::Error),
    /// A row got more or fewer fields than it declared, or none was begun.
    UnmatchElementNums(UnmatchElementNumsError),
    /// A value could not be converted, such as a path that is no string.
    UnexpectedError(String),
    /// The encoder or the compressor refused a write.
    MsgpackValueWriteError(std::io::Error),
}

impl From<UnmatchElementNumsError> for TableImportChunkError {
    fn from(err: UnmatchElementNumsError) -> (r: Self)
        ensures
            r == TableImportChunkError::UnmatchElementNums(err),
    {
        TableImportChunkError::UnmatchElementNums(err)
    }
}

impl vstd::std_specs::convert::FromSpecImpl<UnmatchElementNumsError> for TableImportChunkError {
    open spec fn obeys_from_spec() -> bool {
        true
    }

    open spec fn from_spec(err: UnmatchElementNumsError) -> Self {
        TableImportChunkError::UnmatchElementNums(err)
    }
}

impl From<std::io::Error> for TableImportChunkError {
    fn from(err: std::io::Error) -> (r: Self)
        ensures
            r == TableImportChunkError::IOError(err),
    {
        TableImportChunkError::IOError(err)
    }
}

impl vstd::std_specs::convert::FromSpecImpl<std::io::Error> for TableImportChunkError {
    open spec fn obeys_from_spec() -> bool {
        true
    }

    open spec fn from_spec(err: std::io::Error) -> Self {
        TableImportChunkError::IOError(err)
    }
}

/// A field's value as it was written, bit patterns standing for floats.
pub enum FieldValue {
    Nil,
    Bool(bool),
    PFix(u8),
    NFix(i8),
    U8(u8),
    U16(u16),
    U32(u32),
    U64(u64),
    I8(i8),
    I16(i16),
    I32(i32),
    I64(i64),
    UInt(u64),
    SInt(i64),
    F32Bits(u32),
    F64Bits(u64),
    Str(Seq<u8>),
    Bin(Seq<u8>),
    ArrayHeader(u32),
    MapHeader(u32),
    ExtMeta(u32, i8),
}

/// A row as written so far: its declared field count, and its fields as
/// (key bytes, value) pairs.
pub struct RowModel {
    pub declared: u32,
    pub fields: Seq<(Seq<u8>, FieldValue)>,
}

/// The msgpack bytes of a value.
pub open spec fn value_bytes(v: FieldValue) -> Seq<u8> {
    match v {
        FieldValue::Nil => nil_enc(),
        FieldValue::Bool(b) => bool_enc(b),
        FieldValue::PFix(x) => pfix_enc(x),
        FieldValue::NFix(x) => nfix_enc(x),
        FieldValue::U8(x) => u8_enc(x),
        FieldValue::U16(x) => u16_enc(x),
        FieldValue::U32(x) => u32_enc(x),
        FieldValue::U64(x) => u64_enc(x),
        FieldValue::I8(x) => i8_enc(x),
        FieldValue::I16(x) => i16_enc(x),
        FieldValue::I32(x) => i32_enc(x),
        FieldValue::I64(x) => i64_enc(x),
        FieldValue::UInt(x) => uint_enc(x),
        FieldValue::SInt(x) => sint_enc(x),
        FieldValue::F32Bits(x) => f32_enc(x),
        FieldValue::F64Bits(x) => f64_enc(x),
        FieldValue::Str(b) => str_enc(b),
        FieldValue::Bin(b) => bin_enc(b),
        FieldValue::ArrayHeader(n) => array_header(n),
        FieldValue::MapHeader(n) => map_header(n),
        FieldValue::ExtMeta(n, ty) => ext_header(n, ty),
    }
}

/// A field: its key as a msgpack string, then its value.
pub open spec fn field_bytes(f: (Seq<u8>, FieldValue)) -> Seq<u8> {
    str_enc(f.0) + value_bytes(f.1)
}

pub open spec fn fields_bytes(fs: Seq<(Seq<u8>, FieldValue)>) -> Seq<u8>
    decreases fs.len(),
{
    if fs.len() == 0 {
        Seq::empty()
    } else {
        fields_bytes(fs.drop_last()) + field_bytes(fs.last())
    }
}

/// A row: a map header for its declared count, then its fields.
pub open spec fn row_bytes(r: RowModel) -> Seq<u8> {
    map_header(r.declared) + fields_bytes(r.fields)
}

/// The whole uncompressed stream of a sequence of rows.
pub open spec fn rows_bytes(rows: Seq<RowModel>) -> Seq<u8>
    decreases rows.len(),
{
    if rows.len() == 0 {
        Seq::empty()
    } else {
        rows_bytes(rows.drop_last()) + row_bytes(rows.last())
    }
}

/// Every row holds exactly as many fields as it declared.
pub open spec fn rows_complete(rows: Seq<RowModel>) -> bool {
    forall|i: int| 0 <= i < rows.len() ==> (#[trigger] rows[i]).fields.len() == rows[i].declared
}

/// `rows` with one more field in the last row.
pub open spec fn with_field(rows: Seq<RowModel>, f: (Seq<u8>, FieldValue)) -> Seq<RowModel> {
    rows.update(
        rows.len() - 1,
        RowModel { declared: rows.last().declared, fields: rows.last().fields.push(f) },
    )
}

/// `data` is the gzip stream that a compressor gives for the bytes `input`.
pub open spec fn is_gzip_of(data: Seq<u8>, input: Seq<u8>) -> bool {
    exists|s: GzSink| gz_input(s) == input && #[trigger] gz_stream(s) == data
}

/// The current row, if any, holds as many fields as it declared.
pub open spec fn row_done(c: RowCursor) -> bool {
    match c {
        RowCursor::NotStarted => true,
        RowCursor::Open { capacity, added } => capacity == added,
    }
}

/// The error for a row that ends with the fields it has.
pub open spec fn row_mismatch(c: RowCursor) -> UnmatchElementNumsError {
    match c {
        RowCursor::NotStarted => UnmatchElementNumsError(None),
        RowCursor::Open { capacity, added } => UnmatchElementNumsError(Some((capacity, added as u64))),
    }
}

/// A row is open and has room for one more field.
pub open spec fn can_add(c: RowCursor) -> bool {
    match c {
        RowCursor::NotStarted => false,
        RowCursor::Open { capacity, added } => added < capacity,
    }
}

/// The error for a field that does not fit: none begun, or one past the declared count.
pub open spec fn overflow_error(c: RowCursor) -> UnmatchElementNumsError {
    match c {
        RowCursor::NotStarted => UnmatchElementNumsError(None),
        RowCursor::Open { capacity, added } => UnmatchElementNumsError(Some((capacity, (added + 1) as u64))),
    }
}

/// The cursor after one more field.
pub open spec fn advanced(c: RowCursor) -> RowCursor {
    match c {
        RowCursor::NotStarted => RowCursor::NotStarted,
        RowCursor::Open { capacity, added } => RowCursor::Open { capacity, added: (added + 1) as u32 },
    }
}

/// The cursor after `k` more fields.
pub open spec fn after_fields(c: RowCursor, k: nat) -> RowCursor
    decreases k,
{
    if k == 0 {
        c
    } else {
        advanced(after_fields(c, (k - 1) as nat))
    }
}

/// Writes rows of named fields as msgpack into a gzip stream, checking that
/// each row gets exactly the number of fields it declared.
pub struct TableImportWritableChunk {
    elms_in_row: RowCursor,
    write: GzSink,
    rows: Ghost<Seq<RowModel>>,
}

/// A finished chunk: the complete gzip stream, ready for upload.
pub struct TableImportReadableChunk {
    data: Vec<u8>,
    rows: Ghost<Seq<RowModel>>,
}

impl TableImportReadableChunk {
    /// The compressed bytes of the chunk.
    pub closed spec fn payload(&self) -> Seq<u8> {
        self.data@
    }

    /// The rows that the chunk holds.
    pub closed spec fn rows(&self) -> Seq<RowModel> {
        self.rows@
    }

    pub fn data(&self) -> (r: &[u8])
        ensures
            r@ == self.payload(),
    {
        self.data.as_slice()
    }

    pub fn into_bytes(self) -> (r: Vec<u8>)
        ensures
            r@ == self.payload(),
    {
        self.data
    }
}

impl TableImportWritableChunk {
    /// Where the current row stands.
    pub closed spec fn cursor(&self) -> RowCursor {
        self.elms_in_row
    }

    /// The rows written so far, the last one possibly still open.
    pub closed spec fn rows(&self) -> Seq<RowModel> {
        self.rows@
    }

    /// The compressor has received exactly the bytes of the rows so far; all
    /// rows before the last are complete, and the cursor describes the last.
    pub closed spec fn wf(&self) -> bool {
        &&& gz_input(self.write) == rows_bytes(self.rows@)
        &&& match self.elms_in_row {
            RowCursor::NotStarted => self.rows@.len() == 0,
            RowCursor::Open { capacity, added } => {
                &&& self.rows@.len() > 0
                &&& added <= capacity
                &&& self.rows@.last().declared == capacity
                &&& self.rows@.last().fields.len() == added
                &&& rows_complete(self.rows@.drop_last())
            },
        }
    }

    /// What a field write promises: success exactly when the open row has room,
    /// the field then appended to it; otherwise the arity error, with the writer
    /// left as it was.
    pub open spec fn field_written(
        old_w: Self,
        new_w: Self,
        key: Seq<u8>,
        v: FieldValue,
        r: Result<(), TableImportChunkError>,
    ) -> bool {
        &&& can_add(old_w.cursor()) ==> r is Ok
        &&& !can_add(old_w.cursor()) ==> r == Err::<(), TableImportChunkError>(
            TableImportChunkError::UnmatchElementNums(overflow_error(old_w.cursor())),
        )
        &&& r is Err ==> new_w == old_w
        &&& r is Ok ==> {
            &&& new_w.wf()
            &&& new_w.cursor() == advanced(old_w.cursor())
            &&& new_w.rows() == with_field(old_w.rows(), (key, v))
        }
    }

    /// An empty writer: no row begun, nothing compressed yet.
    pub fn new() -> (r: Self)
        ensures
            r.wf(),
            r.cursor() == RowCursor::NotStarted,
            r.rows() == Seq::<RowModel>::empty(),
    {
        let write = gz_open();
        TableImportWritableChunk { elms_in_row: RowCursor::NotStarted, write, rows: Ghost(Seq::empty()) }
    }

    /// Checks that the current row, if any, got all its fields.
    fn check_elm_number(&self) -> (r: Result<(), UnmatchElementNumsError>)
        ensures
            r is Ok <==> row_done(self.cursor()),
            r is Err ==> r->Err_0 == row_mismatch(self.cursor()),
    {
        match self.elms_in_row {
            RowCursor::Open { capacity, added } => {
                if capacity != added {
                    return Err(UnmatchElementNumsError(Some((capacity, added as u64))));
                }
            },
            RowCursor::NotStarted => {},
        }
        Ok(())
    }

    /// Checks that the last row is complete, then opens a row of `len` fields.
    pub fn next_row(&mut self, len: u32) -> (r: Result<(), TableImportChunkError>)
        requires
            old(self).wf(),
        ensures
            row_done(old(self).cursor()) ==> r is Ok,
            !row_done(old(self).cursor()) ==> r == Err::<(), TableImportChunkError>(
                TableImportChunkError::UnmatchElementNums(row_mismatch(old(self).cursor())),
            ),
            r is Err ==> *final(self) == *old(self),
            r is Ok ==> {
                &&& final(self).wf()
                &&& final(self).cursor() == (RowCursor::Open { capacity: len, added: 0 })
                &&& final(self).rows() == old(self).rows().push(
                    RowModel { declared: len, fields: Seq::empty() },
                )
            },
    {
        if let Err(e) = self.check_elm_number() {
            return Err(TableImportChunkError::from(e));
        }
        let mut buf: Vec<u8> = Vec::new();
        if let Err(e) = put_map_len(&mut buf, len) {
            return Err(TableImportChunkError::MsgpackValueWriteError(e));
        }
        if let Err(e) = gz_write(&mut self.write, buf.as_slice()) {
            return Err(TableImportChunkError::MsgpackValueWriteError(e));
        }
        let ghost old_rows = self.rows@;
        let ghost row = RowModel { declared: len, fields: Seq::empty() };
        self.rows = Ghost(self.rows@.push(row));
        proof {
            assert(buf@ =~= map_header(len));
            assert(self.rows@.drop_last() =~= old_rows);
            assert(row_bytes(row) =~= map_header(len));
            assert(rows_complete(old_rows)) by {
                if old_rows.len() > 0 {
                    assert(old_rows =~= old_rows.drop_last().push(old_rows.last()));
                    assert forall|i: int| 0 <= i < old_rows.len() implies
                        (#[trigger] old_rows[i]).fields.len() == old_rows[i].declared by {
                        if i < old_rows.len() - 1 {
                            assert(old_rows[i] == old_rows.drop_last()[i]);
                        }
                    }
                }
            }
        }
        self.elms_in_row = RowCursor::Open { capacity: len, added: 0 };
        Ok(())
    }

    /// Checks that the open row has room for one more field.
    fn check_room(&self) -> (r: Result<(), UnmatchElementNumsError>)
        requires
            self.wf(),
        ensures
            r is Ok <==> can_add(self.cursor()),
            r is Err ==> r->Err_0 == overflow_error(self.cursor()),
    {
        match self.elms_in_row {
            RowCursor::Open { capacity, added } => {
                if added < capacity {
                    Ok(())
                } else {
                    Err(UnmatchElementNumsError(Some((capacity, added as u64 + 1))))
                }
            },
            RowCursor::NotStarted => Err(UnmatchElementNumsError(None)),
        }
    }

    /// Checks that the open row has room, then hands an encoded field to the
    /// compressor and counts it in the row.
    fn incr_elms_in_row(&mut self, buf: &Vec<u8>, f: Ghost<(Seq<u8>, FieldValue)>) -> (r: Result<
        (),
        TableImportChunkError,
    >)
        requires
            old(self).wf(),
            buf@ == field_bytes(f@),
        ensures
            can_add(old(self).cursor()) ==> r is Ok,
            !can_add(old(self).cursor()) ==> r == Err::<(), TableImportChunkError>(
                TableImportChunkError::UnmatchElementNums(overflow_error(old(self).cursor())),
            ),
            r is Err ==> *final(self) == *old(self),
            r is Ok ==> {
                &&& final(self).wf()
                &&& final(self).cursor() == advanced(old(self).cursor())
                &&& final(self).rows() == with_field(old(self).rows(), f@)
            },
    {
        if let Err(e) = self.check_room() {
            return Err(TableImportChunkError::from(e));
        }
        if let Err(e) = gz_write(&mut self.write, buf.as_slice()) {
            return Err(TableImportChunkError::MsgpackValueWriteError(e));
        }
        let ghost old_rows = self.rows@;
        let ghost last = old_rows.last();
        let ghost row = RowModel { declared: last.declared, fields: last.fields.push(f@) };
        self.rows = Ghost(with_field(old_rows, f@));
        proof {
            assert(self.rows@.drop_last() =~= old_rows.drop_last());
            assert(self.rows@.last() == row);
            assert(row.fields.drop_last() =~= last.fields);
            assert(fields_bytes(row.fields) == fields_bytes(last.fields) + field_bytes(f@));
            assert(row_bytes(row) =~= row_bytes(last) + field_bytes(f@));
            assert(rows_bytes(self.rows@) =~= rows_bytes(old_rows) + buf@);
        }
        match self.elms_in_row {
            RowCursor::Open { capacity, added } => {
                self.elms_in_row = RowCursor::Open { capacity, added: added + 1 };
            },
            RowCursor::NotStarted => {},
        }
        Ok(())
    }

    /// Writes `key`, then the header of an array of `len` elements (the elements are the caller's
    /// to write), as the next field of the open row.
    pub fn write_key_and_array_header(&mut self, key: &str, len: u32) -> (r: Result<(), TableImportChunkError>)
        requires
            old(self).wf(),
            key.spec_bytes().len() <= u32::MAX,
        ensures
            Self::field_written(*old(self), *final(self), key.spec_bytes(), FieldValue::ArrayHeader(len), r),
    {
        let mut buf: Vec<u8> = Vec::new();
        if let Err(e) = put_str(&mut buf, key) {
            return Err(TableImportChunkError::MsgpackValueWriteError(e));
        }
        if let Err(e) = put_array_len(&mut buf, len) {
            return Err(TableImportChunkError::MsgpackValueWriteError(e));
        }
        let ghost f = (key.spec_bytes(), FieldValue::ArrayHeader(len));
        assert(buf@ =~= field_bytes(f));
        self.incr_elms_in_row(&buf, Ghost(f))
    }

    /// Writes `key`, then `data` as a binary blob, as the next field of the open row.
    pub fn write_key_and_bin(&mut self, key: &str, data: &[u8]) -> (r: Result<(), TableImportChunkError>)
        requires
            old(self).wf(),
            key.spec_bytes().len() <= u32::MAX,
            data@.len() <= u32::MAX,
        ensures
            Self::field_written(*old(self), *final(self), key.spec_bytes(), FieldValue::Bin(data@), r),
    {
        let mut buf: Vec<u8> = Vec::new();
        if let Err(e) = put_str(&mut buf, key) {
            return Err(TableImportChunkError::MsgpackValueWriteError(e));
        }
        if let Err(e) = put_bin(&mut buf, data) {
            return Err(TableImportChunkError::MsgpackValueWriteError(e));
        }
        let ghost f = (key.spec_bytes(), FieldValue::Bin(data@));
        assert(buf@ =~= field_bytes(f));
        self.incr_elms_in_row(&buf, Ghost(f))
    }

    /// Writes `key`, then `val`, as the next field of the open row.
    pub fn write_key_and_bool(&mut self, key: &str, val: bool) -> (r: Result<(), TableImportChunkError>)
        requires
            old(self).wf(),
            key.spec_bytes().len() <= u32::MAX,
        ensures
            Self::field_written(*old(self), *final(self), key.spec_bytes(), FieldValue::Bool(val), r),
    {
        let mut buf: Vec<u8> = Vec::new();
        if let Err(e) = put_str(&mut buf, key) {
            return Err(TableImportChunkError::MsgpackValueWriteError(e));
        }
        if let Err(e) = put_bool(&mut buf, val) {
            return Err(TableImportChunkError::MsgpackValueWriteError(e));
        }
        let ghost f = (key.spec_bytes(), FieldValue::Bool(val));
        assert(buf@ =~= field_bytes(f));
        self.incr_elms_in_row(&buf, Ghost(f))
    }

    /// Writes `key`, then the header of an extension value of `len` bytes and type `typeid`, as the
    /// next field of the open row.
    pub fn write_key_and_ext_meta(&mut self, key: &str, len: u32, typeid: i8) -> (r: Result<(), TableImportChunkError>)
        requires
            old(self).wf(),
            key.spec_bytes().len() <= u32::MAX,
        ensures
            Self::field_written(*old(self), *final(self), key.spec_bytes(), FieldValue::ExtMeta(len, typeid), r),
    {
        let mut buf: Vec<u8> = Vec::new();
        if let Err(e) = put_str(&mut buf, key) {
            return Err(TableImportChunkError::MsgpackValueWriteError(e));
        }
        if let Err(e) = put_ext_meta(&mut buf, len, typeid) {
            return Err(TableImportChunkError::MsgpackValueWriteError(e));
        }
        let ghost f = (key.spec_bytes(), FieldValue::ExtMeta(len, typeid));
        assert(buf@ =~= field_bytes(f));
        self.incr_elms_in_row(&buf, Ghost(f))
    }

    /// Writes `key`, then the 32-bit float whose bit pattern is `bits`, as the next field of the
    /// open row.
    pub fn write_key_and_f32_bits(&mut self, key: &str, bits: u32) -> (r: Result<(), TableImportChunkError>)
        requires
            old(self).wf(),
            key.spec_bytes().len() <= u32::MAX,
        ensures
            Self::field_written(*old(self), *final(self), key.spec_bytes(), FieldValue::F32Bits(bits), r),
    {
        let mut buf: Vec<u8> = Vec::new();
        if let Err(e) = put_str(&mut buf, key) {
            return Err(TableImportChunkError::MsgpackValueWriteError(e));
        }
        put_f32_bits(&mut buf, bits);
        let ghost f = (key.spec_bytes(), FieldValue::F32Bits(bits));
        assert(buf@ =~= field_bytes(f));
        self.incr_elms_in_row(&buf, Ghost(f))
    }

    /// Writes `key`, then the 64-bit float whose bit pattern is `bits`, as the next field of the
    /// open row.
    pub fn write_key_and_f64_bits(&mut self, key: &str, bits: u64) -> (r: Result<(), TableImportChunkError>)
        requires
            old(self).wf(),
            key.spec_bytes().len() <= u32::MAX,
        ensures
            Self::field_written(*old(self), *final(self), key.spec_bytes(), FieldValue::F64Bits(bits), r),
    {
        let mut buf: Vec<u8> = Vec::new();
        if let Err(e) = put_str(&mut buf, key) {
            return Err(TableImportChunkError::MsgpackValueWriteError(e));
        }
        put_f64_bits(&mut buf, bits);
        let ghost f = (key.spec_bytes(), FieldValue::F64Bits(bits));
        assert(buf@ =~= field_bytes(f));
        self.incr_elms_in_row(&buf, Ghost(f))
    }

    /// Writes `key`, then `val` in the full-width i16 form, as the next field of the open row.
    pub fn write_key_and_i16(&mut self, key: &str, val: i16) -> (r: Result<(), TableImportChunkError>)
        requires
            old(self).wf(),
            key.spec_bytes().len() <= u32::MAX,
        ensures
            Self::field_written(*old(self), *final(self), key.spec_bytes(), FieldValue::I16(val), r),
    {
        let mut buf: Vec<u8> = Vec::new();
        if let Err(e) = put_str(&mut buf, key) {
            return Err(TableImportChunkError::MsgpackValueWriteError(e));
        }
        if let Err(e) = put_i16(&mut buf, val) {
            return Err(TableImportChunkError::MsgpackValueWriteError(e));
        }
        let ghost f = (key.spec_bytes(), FieldValue::I16(val));
        assert(buf@ =~= field_bytes(f));
        self.incr_elms_in_row(&buf, Ghost(f))
    }

    /// Writes `key`, then `val` in the full-width i32 form, as the next field of the open row.
    pub fn write_key_and_i32(&mut self, key: &str, val: i32) -> (r: Result<(), TableImportChunkError>)
        requires
            old(self).wf(),
            key.spec_bytes().len() <= u32::MAX,
        ensures
            Self::field_written(*old(self), *final(self), key.spec_bytes(), FieldValue::I32(val), r),
    {
        let mut buf: Vec<u8> = Vec::new();
        if let Err(e) = put_str(&mut buf, key) {
            return Err(TableImportChunkError::MsgpackValueWriteError(e));
        }
        if let Err(e) = put_i32(&mut buf, val) {
            return Err(TableImportChunkError::MsgpackValueWriteError(e));
        }
        let ghost f = (key.spec_bytes(), FieldValue::I32(val));
        assert(buf@ =~= field_bytes(f));
        self.incr_elms_in_row(&buf, Ghost(f))
    }

    /// Writes `key`, then `val` in the full-width i64 form, as the next field of the open row.
    pub fn write_key_and_i64(&mut self, key: &str, val: i64) -> (r: Result<(), TableImportChunkError>)
        requires
            old(self).wf(),
            key.spec_bytes().len() <= u32::MAX,
        ensures
            Self::field_written(*old(self), *final(self), key.spec_bytes(), FieldValue::I64(val), r),
    {
        let mut buf: Vec<u8> = Vec::new();
        if let Err(e) = put_str(&mut buf, key) {
            return Err(TableImportChunkError::MsgpackValueWriteError(e));
        }
        if let Err(e) = put_i64(&mut buf, val) {
            return Err(TableImportChunkError::MsgpackValueWriteError(e));
        }
        let ghost f = (key.spec_bytes(), FieldValue::I64(val));
        assert(buf@ =~= field_bytes(f));
        self.incr_elms_in_row(&buf, Ghost(f))
    }

    /// Writes `key`, then `val` in the full-width i8 form, as the next field of the open row.
    pub fn write_key_and_i8(&mut self, key: &str, val: i8) -> (r: Result<(), TableImportChunkError>)
        requires
            old(self).wf(),
            key.spec_bytes().len() <= u32::MAX,
        ensures
            Self::field_written(*old(self), *final(self), key.spec_bytes(), FieldValue::I8(val), r),
    {
        let mut buf: Vec<u8> = Vec::new();
        if let Err(e) = put_str(&mut buf, key) {
            return Err(TableImportChunkError::MsgpackValueWriteError(e));
        }
        if let Err(e) = put_i8(&mut buf, val) {
            return Err(TableImportChunkError::MsgpackValueWriteError(e));
        }
        let ghost f = (key.spec_bytes(), FieldValue::I8(val));
        assert(buf@ =~= field_bytes(f));
        self.incr_elms_in_row(&buf, Ghost(f))
    }

    /// Writes `key`, then the header of a map of `len` entries (the entries are the caller's to
    /// write), as the next field of the open row.
    pub fn write_key_and_map_len(&mut self, key: &str, len: u32) -> (r: Result<(), TableImportChunkError>)
        requires
            old(self).wf(),
            key.spec_bytes().len() <= u32::MAX,
        ensures
            Self::field_written(*old(self), *final(self), key.spec_bytes(), FieldValue::MapHeader(len), r),
    {
        let mut buf: Vec<u8> = Vec::new();
        if let Err(e) = put_str(&mut buf, key) {
            return Err(TableImportChunkError::MsgpackValueWriteError(e));
        }
        if let Err(e) = put_map_len(&mut buf, len) {
            return Err(TableImportChunkError::MsgpackValueWriteError(e));
        }
        let ghost f = (key.spec_bytes(), FieldValue::MapHeader(len));
        assert(buf@ =~= field_bytes(f));
        self.incr_elms_in_row(&buf, Ghost(f))
    }

    /// Writes `key`, then `val` as a negative fixint, as the next field of the open row.
    pub fn write_key_and_nfix(&mut self, key: &str, val: i8) -> (r: Result<(), TableImportChunkError>)
        requires
            old(self).wf(),
            key.spec_bytes().len() <= u32::MAX,
            -32 <= val < 0,
        ensures
            Self::field_written(*old(self), *final(self), key.spec_bytes(), FieldValue::NFix(val), r),
    {
        let mut buf: Vec<u8> = Vec::new();
        if let Err(e) = put_str(&mut buf, key) {
            return Err(TableImportChunkError::MsgpackValueWriteError(e));
        }
        if let Err(e) = put_nfix(&mut buf, val) {
            return Err(TableImportChunkError::MsgpackValueWriteError(e));
        }
        let ghost f = (key.spec_bytes(), FieldValue::NFix(val));
        assert(buf@ =~= field_bytes(f));
        self.incr_elms_in_row(&buf, Ghost(f))
    }

    /// Writes `key`, then nil, as the next field of the open row.
    pub fn write_key_and_nil(&mut self, key: &str) -> (r: Result<(), TableImportChunkError>)
        requires
            old(self).wf(),
            key.spec_bytes().len() <= u32::MAX,
        ensures
            Self::field_written(*old(self), *final(self), key.spec_bytes(), FieldValue::Nil, r),
    {
        let mut buf: Vec<u8> = Vec::new();
        if let Err(e) = put_str(&mut buf, key) {
            return Err(TableImportChunkError::MsgpackValueWriteError(e));
        }
        if let Err(e) = put_nil(&mut buf) {
            return Err(TableImportChunkError::MsgpackValueWriteError(e));
        }
        let ghost f = (key.spec_bytes(), FieldValue::Nil);
        assert(buf@ =~= field_bytes(f));
        self.incr_elms_in_row(&buf, Ghost(f))
    }

    /// Writes `key`, then `val` as a positive fixint, as the next field of the open row.
    pub fn write_key_and_pfix(&mut self, key: &str, val: u8) -> (r: Result<(), TableImportChunkError>)
        requires
            old(self).wf(),
            key.spec_bytes().len() <= u32::MAX,
            val < 128,
        ensures
            Self::field_written(*old(self), *final(self), key.spec_bytes(), FieldValue::PFix(val), r),
    {
        let mut buf: Vec<u8> = Vec::new();
        if let Err(e) = put_str(&mut buf, key) {
            return Err(TableImportChunkError::MsgpackValueWriteError(e));
        }
        if let Err(e) = put_pfix(&mut buf, val) {
            return Err(TableImportChunkError::MsgpackValueWriteError(e));
        }
        let ghost f = (key.spec_bytes(), FieldValue::PFix(val));
        assert(buf@ =~= field_bytes(f));
        self.incr_elms_in_row(&buf, Ghost(f))
    }

    /// Writes `key`, then `val` in its shortest form, as the next field of the open row.
    pub fn write_key_and_sint(&mut self, key: &str, val: i64) -> (r: Result<(), TableImportChunkError>)
        requires
            old(self).wf(),
            key.spec_bytes().len() <= u32::MAX,
        ensures
            Self::field_written(*old(self), *final(self), key.spec_bytes(), FieldValue::SInt(val), r),
    {
        let mut buf: Vec<u8> = Vec::new();
        if let Err(e) = put_str(&mut buf, key) {
            return Err(TableImportChunkError::MsgpackValueWriteError(e));
        }
        if let Err(e) = put_sint(&mut buf, val) {
            return Err(TableImportChunkError::MsgpackValueWriteError(e));
        }
        let ghost f = (key.spec_bytes(), FieldValue::SInt(val));
        assert(buf@ =~= field_bytes(f));
        self.incr_elms_in_row(&buf, Ghost(f))
    }

    /// Writes `key`, then `val` in its shortest form, as `write_key_and_sint` does, as the next
    /// field of the open row.
    pub fn write_key_and_sint_eff(&mut self, key: &str, val: i64) -> (r: Result<(), TableImportChunkError>)
        requires
            old(self).wf(),
            key.spec_bytes().len() <= u32::MAX,
        ensures
            Self::field_written(*old(self), *final(self), key.spec_bytes(), FieldValue::SInt(val), r),
    {
        let mut buf: Vec<u8> = Vec::new();
        if let Err(e) = put_str(&mut buf, key) {
            return Err(TableImportChunkError::MsgpackValueWriteError(e));
        }
        if let Err(e) = put_sint(&mut buf, val) {
            return Err(TableImportChunkError::MsgpackValueWriteError(e));
        }
        let ghost f = (key.spec_bytes(), FieldValue::SInt(val));
        assert(buf@ =~= field_bytes(f));
        self.incr_elms_in_row(&buf, Ghost(f))
    }

    /// Writes `key`, then `data` as a string, as the next field of the open row.
    pub fn write_key_and_str(&mut self, key: &str, data: &str) -> (r: Result<(), TableImportChunkError>)
        requires
            old(self).wf(),
            key.spec_bytes().len() <= u32::MAX,
            data.spec_bytes().len() <= u32::MAX,
        ensures
            Self::field_written(*old(self), *final(self), key.spec_bytes(), FieldValue::Str(data.spec_bytes()), r),
    {
        let mut buf: Vec<u8> = Vec::new();
        if let Err(e) = put_str(&mut buf, key) {
            return Err(TableImportChunkError::MsgpackValueWriteError(e));
        }
        if let Err(e) = put_str(&mut buf, data) {
            return Err(TableImportChunkError::MsgpackValueWriteError(e));
        }
        let ghost f = (key.spec_bytes(), FieldValue::Str(data.spec_bytes()));
        assert(buf@ =~= field_bytes(f));
        self.incr_elms_in_row(&buf, Ghost(f))
    }

    /// Writes `key`, then `val` in the full-width u16 form, as the next field of the open row.
    pub fn write_key_and_u16(&mut self, key: &str, val: u16) -> (r: Result<(), TableImportChunkError>)
        requires
            old(self).wf(),
            key.spec_bytes().len() <= u32::MAX,
        ensures
            Self::field_written(*old(self), *final(self), key.spec_bytes(), FieldValue::U16(val), r),
    {
        let mut buf: Vec<u8> = Vec::new();
        if let Err(e) = put_str(&mut buf, key) {
            return Err(TableImportChunkError::MsgpackValueWriteError(e));
        }
        if let Err(e) = put_u16(&mut buf, val) {
            return Err(TableImportChunkError::MsgpackValueWriteError(e));
        }
        let ghost f = (key.spec_bytes(), FieldValue::U16(val));
        assert(buf@ =~= field_bytes(f));
        self.incr_elms_in_row(&buf, Ghost(f))
    }

    /// Writes `key`, then `val` in the full-width u32 form, as the next field of the open row.
    pub fn write_key_and_u32(&mut self, key: &str, val: u32) -> (r: Result<(), TableImportChunkError>)
        requires
            old(self).wf(),
            key.spec_bytes().len() <= u32::MAX,
        ensures
            Self::field_written(*old(self), *final(self), key.spec_bytes(), FieldValue::U32(val), r),
    {
        let mut buf: Vec<u8> = Vec::new();
        if let Err(e) = put_str(&mut buf, key) {
            return Err(TableImportChunkError::MsgpackValueWriteError(e));
        }
        if let Err(e) = put_u32(&mut buf, val) {
            return Err(TableImportChunkError::MsgpackValueWriteError(e));
        }
        let ghost f = (key.spec_bytes(), FieldValue::U32(val));
        assert(buf@ =~= field_bytes(f));
        self.incr_elms_in_row(&buf, Ghost(f))
    }

    /// Writes `key`, then `val` in the full-width u64 form, as the next field of the open row.
    pub fn write_key_and_u64(&mut self, key: &str, val: u64) -> (r: Result<(), TableImportChunkError>)
        requires
            old(self).wf(),
            key.spec_bytes().len() <= u32::MAX,
        ensures
            Self::field_written(*old(self), *final(self), key.spec_bytes(), FieldValue::U64(val), r),
    {
        let mut buf: Vec<u8> = Vec::new();
        if let Err(e) = put_str(&mut buf, key) {
            return Err(TableImportChunkError::MsgpackValueWriteError(e));
        }
        if let Err(e) = put_u64(&mut buf, val) {
            return Err(TableImportChunkError::MsgpackValueWriteError(e));
        }
        let ghost f = (key.spec_bytes(), FieldValue::U64(val));
        assert(buf@ =~= field_bytes(f));
        self.incr_elms_in_row(&buf, Ghost(f))
    }

    /// Writes `key`, then `val` in the full-width u8 form, as the next field of the open row.
    pub fn write_key_and_u8(&mut self, key: &str, val: u8) -> (r: Result<(), TableImportChunkError>)
        requires
            old(self).wf(),
            key.spec_bytes().len() <= u32::MAX,
        ensures
            Self::field_written(*old(self), *final(self), key.spec_bytes(), FieldValue::U8(val), r),
    {
        let mut buf: Vec<u8> = Vec::new();
        if let Err(e) = put_str(&mut buf, key) {
            return Err(TableImportChunkError::MsgpackValueWriteError(e));
        }
        if let Err(e) = put_u8(&mut buf, val) {
            return Err(TableImportChunkError::MsgpackValueWriteError(e));
        }
        let ghost f = (key.spec_bytes(), FieldValue::U8(val));
        assert(buf@ =~= field_bytes(f));
        self.incr_elms_in_row(&buf, Ghost(f))
    }

    /// Writes `key`, then `val` in its shortest unsigned form, as the next field of the open row.
    pub fn write_key_and_uint(&mut self, key: &str, val: u64) -> (r: Result<(), TableImportChunkError>)
        requires
            old(self).wf(),
            key.spec_bytes().len() <= u32::MAX,
        ensures
            Self::field_written(*old(self), *final(self), key.spec_bytes(), FieldValue::UInt(val), r),
    {
        let mut buf: Vec<u8> = Vec::new();
        if let Err(e) = put_str(&mut buf, key) {
            return Err(TableImportChunkError::MsgpackValueWriteError(e));
        }
        if let Err(e) = put_uint(&mut buf, val) {
            return Err(TableImportChunkError::MsgpackValueWriteError(e));
        }
        let ghost f = (key.spec_bytes(), FieldValue::UInt(val));
        assert(buf@ =~= field_bytes(f));
        self.incr_elms_in_row(&buf, Ghost(f))
    }

    /// Checks that the last row is complete and finishes the gzip stream.
    pub fn close(self) -> (r: Result<TableImportReadableChunk, TableImportChunkError>)
        requires
            self.wf(),
        ensures
            row_done(self.cursor()) ==> r is Ok,
            !row_done(self.cursor()) ==> r is Err && r->Err_0 == TableImportChunkError::UnmatchElementNums(
                row_mismatch(self.cursor()),
            ),
            r is Ok ==> {
                &&& rows_complete(self.rows())
                &&& r->Ok_0.rows() == self.rows()
                &&& is_gzip_of(r->Ok_0.payload(), rows_bytes(self.rows()))
            },
    {
        if let Err(e) = self.check_elm_number() {
            return Err(TableImportChunkError::from(e));
        }
        let ghost sink = self.write;
        let data = match gz_finish(self.write) {
            Ok(d) => d,
            Err(e) => return Err(TableImportChunkError::from(e)),
        };
        proof {
            let rows = self.rows@;
            if rows.len() > 0 {
                assert forall|i: int| 0 <= i < rows.len() implies
                    (#[trigger] rows[i]).fields.len() == rows[i].declared by {
                    if i < rows.len() - 1 {
                        assert(rows[i] == rows.drop_last()[i]);
                    }
                }
            }
            assert(gz_stream(sink) == data@);
        }
        Ok(TableImportReadableChunk { data, rows: self.rows })
    }
}

/// Opening a row of `n` fields and then writing `k` fields leaves the cursor
/// at `k` written of `n`.
pub proof fn lemma_fields_counted(n: u32, k: nat)
    requires
        k <= n,
    ensures
        after_fields(RowCursor::Open { capacity: n, added: 0 }, k) == (RowCursor::Open {
            capacity: n,
            added: k as u32,
        }),
    decreases k,
{
    if k > 0 {
        lemma_fields_counted(n, (k - 1) as nat);
    }
}

/// A row opened with `n` fields takes each of its `n` field writes, and after
/// exactly `n` of them the row is complete, so the next row or close passes its
/// arity check.
pub proof fn lemma_full_row_completes(n: u32)
    ensures
        forall|k: nat| k < n ==> can_add(#[trigger] after_fields(RowCursor::Open { capacity: n, added: 0 }, k)),
        row_done(after_fields(RowCursor::Open { capacity: n, added: 0 }, n as nat)),
{
    assert forall|k: nat| k < n implies can_add(#[trigger] after_fields(RowCursor::Open { capacity: n, added: 0 }, k)) by {
        lemma_fields_counted(n, k);
    }
    lemma_fields_counted(n, n as nat);
}

/// A row opened with `n` fields that got only `k < n` of them fails the arity
/// check of the next row or of close, with the error carrying `(n, k)`.
pub proof fn lemma_short_row_mismatch(n: u32, k: nat)
    requires
        k < n,
    ensures
        !row_done(after_fields(RowCursor::Open { capacity: n, added: 0 }, k)),
        row_mismatch(after_fields(RowCursor::Open { capacity: n, added: 0 }, k))
            == UnmatchElementNumsError(Some((n, k as u64))),
{
    lemma_fields_counted(n, k);
}

/// No field fits before the first row is begun, and the error says that no row
/// was begun.
pub proof fn lemma_no_field_before_first_row()
    ensures
        !can_add(RowCursor::NotStarted),
        overflow_error(RowCursor::NotStarted) == UnmatchElementNumsError(None),
{
}

/// In a row opened with `n` fields, the `n + 1`-th field write is the first that
/// fails, and its error carries `(n, n + 1)`.
pub proof fn lemma_extra_field_rejected(n: u32)
    ensures
        forall|k: nat| k < n ==> can_add(#[trigger] after_fields(RowCursor::Open { capacity: n, added: 0 }, k)),
        !can_add(after_fields(RowCursor::Open { capacity: n, added: 0 }, n as nat)),
        overflow_error(after_fields(RowCursor::Open { capacity: n, added: 0 }, n as nat))
            == UnmatchElementNumsError(Some((n, (n + 1) as u64))),
{
    lemma_full_row_completes(n);
    lemma_fields_counted(n, n as nat);
}

} // verus!
