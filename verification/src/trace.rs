//! The lines of the execution trace.
//!
//! Every line starts with a bracketed tag and ends with a newline. A line
//! is put together piece by piece in a buffer that the caller supplies; a
//! piece that does not fit ends the line early, and what was written up to
//! there is the line. Each function returns the writer that holds the line.

use crate::buffer_writer::BufferWriter;
use crate::text::{pointer_text, signed_decimal, write_decimal, write_pointer, RawName};
use vstd::prelude::*;
use vstd::string::StringSliceAdditionalSpecFns;
use vstd::utf8::encode_utf8;

verus! {

/// A line under construction: what has been written, and whether every
/// piece so far has fit.
pub struct Line {
    pub text: Seq<u8>,
    pub open: bool,
}

impl Line {
    /// The empty line.
    pub open spec fn start() -> Line {
        Line { text: Seq::empty(), open: true }
    }

    /// The line after `piece` was offered to a buffer of `capacity` bytes:
    /// the piece is added where all pieces before it fit and it fits too;
    /// otherwise the line stays as it is and takes no further piece.
    pub open spec fn offer(self, piece: Seq<u8>, capacity: nat) -> Line {
        if self.open && self.text.len() + piece.len() <= capacity {
            Line { text: self.text + piece, open: true }
        } else {
            Line { text: self.text, open: false }
        }
    }
}

/// The bytes written for a function name.
pub open spec fn name_bytes(funct_name: RawName) -> Seq<u8> {
    funct_name.spec_or_label("[null]", "[invalid utf8]").spec_bytes()
}

/// The line that reports the argument `value` of the function `name`.
pub open spec fn arg_line(name: Seq<u8>, value: Seq<u8>, capacity: nat) -> Seq<u8> {
    Line::start().offer("[ARG] Function name: ".spec_bytes(), capacity).offer(name, capacity).offer(
        ", value: ".spec_bytes(),
        capacity,
    ).offer(value, capacity).offer("\n".spec_bytes(), capacity).text
}

/// The line that reports the return value `value` of the function `name`.
pub open spec fn ret_line(name: Seq<u8>, value: Seq<u8>, capacity: nat) -> Seq<u8> {
    Line::start().offer("[RET] Function name: ".spec_bytes(), capacity).offer(name, capacity).offer(
        ", value: ".spec_bytes(),
        capacity,
    ).offer(value, capacity).offer("\n".spec_bytes(), capacity).text
}

/// The line that reports the pointer argument `value` of the function
/// `name`.
pub open spec fn arg_ptr_line(name: Seq<u8>, value: Seq<u8>, capacity: nat) -> Seq<u8> {
    Line::start().offer("[ARG] Function name: ".spec_bytes(), capacity).offer(name, capacity).offer(
        ", value(pointer): ".spec_bytes(),
        capacity,
    ).offer(value, capacity).offer("\n".spec_bytes(), capacity).text
}

/// The line that reports an argument of opaque type of the function whose
/// quoted name is `quoted`.
pub open spec fn arg_opaque_line(quoted: Seq<u8>, capacity: nat) -> Seq<u8> {
    Line::start().offer("[ARG] Function ".spec_bytes(), capacity).offer(quoted, capacity).offer(
        " has a runtime argument with opaque type, size: in progress".spec_bytes(),
        capacity,
    ).offer("\n".spec_bytes(), capacity).text
}

/// The line that reports the pointer `value` returned by the function
/// `name`.
pub open spec fn ret_ptr_line(name: Seq<u8>, value: Seq<u8>, capacity: nat) -> Seq<u8> {
    Line::start().offer("[RET] Function ".spec_bytes(), capacity).offer(name, capacity).offer(
        " returned a pointer with address ".spec_bytes(),
        capacity,
    ).offer(value, capacity).offer("\n".spec_bytes(), capacity).text
}

/// The line that reports that the function `name` returned nothing.
pub open spec fn ret_void_line(name: Seq<u8>, capacity: nat) -> Seq<u8> {
    Line::start().offer("[RET] Function ".spec_bytes(), capacity).offer(name, capacity).offer(
        " returned void".spec_bytes(),
        capacity,
    ).offer("\n".spec_bytes(), capacity).text
}

/// The line that reports the transition to basic block `index` in the
/// function `name`.
pub open spec fn bb_line(index: Seq<u8>, name: Seq<u8>, capacity: nat) -> Seq<u8> {
    Line::start().offer("[BB] Basic block index: ".spec_bytes(), capacity).offer(
        index,
        capacity,
    ).offer(", transition from ".spec_bytes(), capacity).offer(name, capacity).offer(
        "\n".spec_bytes(),
        capacity,
    ).text
}

/// The line that reports the value of opaque type at `value` returned by
/// the function whose quoted name is `quoted`.
pub open spec fn ret_opaque_line(quoted: Seq<u8>, value: Seq<u8>, capacity: nat) -> Seq<u8> {
    Line::start().offer("[RET] Function ".spec_bytes(), capacity).offer(quoted, capacity).offer(
        " returned: ".spec_bytes(),
        capacity,
    ).offer(value, capacity).offer("\n".spec_bytes(), capacity).text
}

/// The text that the `Debug` form of a string writes: the string in double
/// quotes, with escapes.
pub uninterp spec fn debug_text(s: Seq<char>) -> Seq<char>;

/// `format!` with `{:?}` on a string: its `Debug` form.
#[verifier::external_body]
fn debug_quoted(s: &str) -> (r: String)
    ensures
        r@ == debug_text(s@),
{
    format!("{:?}", s)
}

/// Offers the bytes of `s` to the line in `w`.
fn put_str(w: &mut BufferWriter, open: bool, s: &str) -> (still: bool)
    requires
        old(w).wf(),
    ensures
        final(w).wf(),
        final(w).capacity() == old(w).capacity(),
        (Line { text: final(w)@, open: still }) == (Line { text: old(w)@, open }).offer(
            s.spec_bytes(),
            old(w).capacity(),
        ),
{
    open && w.write_str(s).is_ok()
}

/// Offers the decimal text of `v` to the line in `w`.
fn put_decimal(w: &mut BufferWriter, open: bool, v: i64) -> (still: bool)
    requires
        old(w).wf(),
    ensures
        final(w).wf(),
        final(w).capacity() == old(w).capacity(),
        (Line { text: final(w)@, open: still }) == (Line { text: old(w)@, open }).offer(
            signed_decimal(v as int),
            old(w).capacity(),
        ),
{
    open && write_decimal(w, v).is_ok()
}

/// Offers the text of the address `addr` to the line in `w`.
fn put_pointer(w: &mut BufferWriter, open: bool, addr: usize) -> (still: bool)
    requires
        old(w).wf(),
    ensures
        final(w).wf(),
        final(w).capacity() == old(w).capacity(),
        (Line { text: final(w)@, open: still }) == (Line { text: old(w)@, open }).offer(
            pointer_text(addr),
            old(w).capacity(),
        ),
{
    open && write_pointer(w, addr).is_ok()
}

/// Builds the line for the argument of a function, given as text.
pub fn libresolve_arg<'a>(buf: &'a mut [u8], arg: &str, funct_name: RawName) -> (line:
    BufferWriter<'a>)
    ensures
        line.wf(),
        line.capacity() == old(buf)@.len(),
        line@ == arg_line(name_bytes(funct_name), arg.spec_bytes(), old(buf)@.len()),
{
    let name = funct_name.or_label("[null]", "[invalid utf8]");
    let mut w = BufferWriter::new(buf);
    let mut open = put_str(&mut w, true, "[ARG] Function name: ");
    open = put_str(&mut w, open, name);
    open = put_str(&mut w, open, ", value: ");
    open = put_str(&mut w, open, arg);
    let _ = put_str(&mut w, open, "\n");
    w
}

/// Builds the line for the return value of a function, given as text.
pub fn libresolve_ret<'a>(buf: &'a mut [u8], ret: &str, funct_name: RawName) -> (line:
    BufferWriter<'a>)
    ensures
        line.wf(),
        line.capacity() == old(buf)@.len(),
        line@ == ret_line(name_bytes(funct_name), ret.spec_bytes(), old(buf)@.len()),
{
    let name = funct_name.or_label("[null]", "[invalid utf8]");
    let mut w = BufferWriter::new(buf);
    let mut open = put_str(&mut w, true, "[RET] Function name: ");
    open = put_str(&mut w, open, name);
    open = put_str(&mut w, open, ", value: ");
    open = put_str(&mut w, open, ret);
    let _ = put_str(&mut w, open, "\n");
    w
}

/// Builds the line for an integer argument of a function.
pub fn libresolve_arg_i64<'a>(buf: &'a mut [u8], arg: i64, funct_name: RawName) -> (line:
    BufferWriter<'a>)
    ensures
        line.wf(),
        line.capacity() == old(buf)@.len(),
        line@ == arg_line(name_bytes(funct_name), signed_decimal(arg as int), old(buf)@.len()),
{
    let name = funct_name.or_label("[null]", "[invalid utf8]");
    let mut w = BufferWriter::new(buf);
    let mut open = put_str(&mut w, true, "[ARG] Function name: ");
    open = put_str(&mut w, open, name);
    open = put_str(&mut w, open, ", value: ");
    open = put_decimal(&mut w, open, arg);
    let _ = put_str(&mut w, open, "\n");
    w
}

/// Builds the line for an 8-bit argument of a function.
pub fn libresolve_arg_i8<'a>(buf: &'a mut [u8], arg: i8, funct_name: RawName) -> (line:
    BufferWriter<'a>)
    ensures
        line.wf(),
        line.capacity() == old(buf)@.len(),
        line@ == arg_line(name_bytes(funct_name), signed_decimal(arg as int), old(buf)@.len()),
{
    libresolve_arg_i64(buf, arg as i64, funct_name)
}

/// Builds the line for a 16-bit argument of a function.
pub fn libresolve_arg_i16<'a>(buf: &'a mut [u8], arg: i16, funct_name: RawName) -> (line:
    BufferWriter<'a>)
    ensures
        line.wf(),
        line.capacity() == old(buf)@.len(),
        line@ == arg_line(name_bytes(funct_name), signed_decimal(arg as int), old(buf)@.len()),
{
    libresolve_arg_i64(buf, arg as i64, funct_name)
}

/// Builds the line for a 32-bit argument of a function.
pub fn libresolve_arg_i32<'a>(buf: &'a mut [u8], arg: i32, funct_name: RawName) -> (line:
    BufferWriter<'a>)
    ensures
        line.wf(),
        line.capacity() == old(buf)@.len(),
        line@ == arg_line(name_bytes(funct_name), signed_decimal(arg as int), old(buf)@.len()),
{
    libresolve_arg_i64(buf, arg as i64, funct_name)
}

/// Builds the line for a pointer argument of a function.
pub fn libresolve_arg_ptr<'a>(buf: &'a mut [u8], arg: usize, funct_name: RawName) -> (line:
    BufferWriter<'a>)
    ensures
        line.wf(),
        line.capacity() == old(buf)@.len(),
        line@ == arg_ptr_line(name_bytes(funct_name), pointer_text(arg), old(buf)@.len()),
{
    let name = funct_name.or_label("[null]", "[invalid utf8]");
    let mut w = BufferWriter::new(buf);
    let mut open = put_str(&mut w, true, "[ARG] Function name: ");
    open = put_str(&mut w, open, name);
    open = put_str(&mut w, open, ", value(pointer): ");
    open = put_pointer(&mut w, open, arg);
    let _ = put_str(&mut w, open, "\n");
    w
}

/// Builds the line for an argument of opaque type, from the quoted name of
/// the function.
pub fn arg_opaque<'a>(buf: &'a mut [u8], quoted: &str) -> (line: BufferWriter<'a>)
    ensures
        line.wf(),
        line.capacity() == old(buf)@.len(),
        line@ == arg_opaque_line(quoted.spec_bytes(), old(buf)@.len()),
{
    let mut w = BufferWriter::new(buf);
    let mut open = put_str(&mut w, true, "[ARG] Function ");
    open = put_str(&mut w, open, quoted);
    open = put_str(&mut w, open, " has a runtime argument with opaque type, size: in progress");
    let _ = put_str(&mut w, open, "\n");
    w
}

/// Builds the line for an argument of opaque type. The function name is
/// written in its `Debug` form; a null name is written as
/// `[invalid pointer]`.
pub fn libresolve_arg_opaque<'a>(buf: &'a mut [u8], funct_name: RawName) -> (line: BufferWriter<
    'a,
>)
    ensures
        line.wf(),
        line.capacity() == old(buf)@.len(),
        line@ == arg_opaque_line(
            encode_utf8(
                debug_text(funct_name.spec_or_label("[invalid pointer]", "[invalid utf8]")@),
            ),
            old(buf)@.len(),
        ),
{
    let name = funct_name.or_label("[invalid pointer]", "[invalid utf8]");
    let quoted = debug_quoted(name);
    arg_opaque(buf, quoted.as_str())
}

/// Builds the line for an integer return value of a function.
pub fn libresolve_ret_i64<'a>(buf: &'a mut [u8], ret: i64, funct_name: RawName) -> (line:
    BufferWriter<'a>)
    ensures
        line.wf(),
        line.capacity() == old(buf)@.len(),
        line@ == ret_line(name_bytes(funct_name), signed_decimal(ret as int), old(buf)@.len()),
{
    let name = funct_name.or_label("[null]", "[invalid utf8]");
    let mut w = BufferWriter::new(buf);
    let mut open = put_str(&mut w, true, "[RET] Function name: ");
    open = put_str(&mut w, open, name);
    open = put_str(&mut w, open, ", value: ");
    open = put_decimal(&mut w, open, ret);
    let _ = put_str(&mut w, open, "\n");
    w
}

/// Builds the line for an 8-bit return value of a function.
pub fn libresolve_ret_i8<'a>(buf: &'a mut [u8], ret: i8, funct_name: RawName) -> (line:
    BufferWriter<'a>)
    ensures
        line.wf(),
        line.capacity() == old(buf)@.len(),
        line@ == ret_line(name_bytes(funct_name), signed_decimal(ret as int), old(buf)@.len()),
{
    libresolve_ret_i64(buf, ret as i64, funct_name)
}

/// Builds the line for a 16-bit return value of a function.
pub fn libresolve_ret_i16<'a>(buf: &'a mut [u8], ret: i16, funct_name: RawName) -> (line:
    BufferWriter<'a>)
    ensures
        line.wf(),
        line.capacity() == old(buf)@.len(),
        line@ == ret_line(name_bytes(funct_name), signed_decimal(ret as int), old(buf)@.len()),
{
    libresolve_ret_i64(buf, ret as i64, funct_name)
}

/// Builds the line for a 32-bit return value of a function.
pub fn libresolve_ret_i32<'a>(buf: &'a mut [u8], ret: i32, funct_name: RawName) -> (line:
    BufferWriter<'a>)
    ensures
        line.wf(),
        line.capacity() == old(buf)@.len(),
        line@ == ret_line(name_bytes(funct_name), signed_decimal(ret as int), old(buf)@.len()),
{
    libresolve_ret_i64(buf, ret as i64, funct_name)
}

/// Builds the line for a pointer returned by a function.
pub fn libresolve_ret_ptr<'a>(buf: &'a mut [u8], ret: usize, funct_name: RawName) -> (line:
    BufferWriter<'a>)
    ensures
        line.wf(),
        line.capacity() == old(buf)@.len(),
        line@ == ret_ptr_line(name_bytes(funct_name), pointer_text(ret), old(buf)@.len()),
{
    let name = funct_name.or_label("[null]", "[invalid utf8]");
    let mut w = BufferWriter::new(buf);
    let mut open = put_str(&mut w, true, "[RET] Function ");
    open = put_str(&mut w, open, name);
    open = put_str(&mut w, open, " returned a pointer with address ");
    open = put_pointer(&mut w, open, ret);
    let _ = put_str(&mut w, open, "\n");
    w
}

/// Builds the line for a function that returned nothing.
pub fn libresolve_ret_void<'a>(buf: &'a mut [u8], funct_name: RawName) -> (line: BufferWriter<'a>)
    ensures
        line.wf(),
        line.capacity() == old(buf)@.len(),
        line@ == ret_void_line(name_bytes(funct_name), old(buf)@.len()),
{
    let name = funct_name.or_label("[null]", "[invalid utf8]");
    let mut w = BufferWriter::new(buf);
    let mut open = put_str(&mut w, true, "[RET] Function ");
    open = put_str(&mut w, open, name);
    open = put_str(&mut w, open, " returned void");
    let _ = put_str(&mut w, open, "\n");
    w
}

/// Builds the line for a transition to the basic block `index`.
pub fn libresolve_bb<'a>(buf: &'a mut [u8], index: i64, funct_name: RawName) -> (line:
    BufferWriter<'a>)
    ensures
        line.wf(),
        line.capacity() == old(buf)@.len(),
        line@ == bb_line(signed_decimal(index as int), name_bytes(funct_name), old(buf)@.len()),
{
    let name = funct_name.or_label("[null]", "[invalid utf8]");
    let mut w = BufferWriter::new(buf);
    let mut open = put_str(&mut w, true, "[BB] Basic block index: ");
    open = put_decimal(&mut w, open, index);
    open = put_str(&mut w, open, ", transition from ");
    open = put_str(&mut w, open, name);
    let _ = put_str(&mut w, open, "\n");
    w
}

/// Builds the line for a returned value of opaque type at the address
/// `ptr`, from the quoted name of the function.
pub fn ret_opaque<'a>(buf: &'a mut [u8], ptr: usize, quoted: &str) -> (line: BufferWriter<'a>)
    ensures
        line.wf(),
        line.capacity() == old(buf)@.len(),
        line@ == ret_opaque_line(quoted.spec_bytes(), pointer_text(ptr), old(buf)@.len()),
{
    let mut w = BufferWriter::new(buf);
    let mut open = put_str(&mut w, true, "[RET] Function ");
    open = put_str(&mut w, open, quoted);
    open = put_str(&mut w, open, " returned: ");
    open = put_pointer(&mut w, open, ptr);
    let _ = put_str(&mut w, open, "\n");
    w
}

/// Builds the line for a returned value of opaque type at the address
/// `ptr`. The function name is written in its `Debug` form.
pub fn libresolve_ret_opaque<'a>(buf: &'a mut [u8], ptr: usize, funct_name: RawName) -> (line:
    BufferWriter<'a>)
    ensures
        line.wf(),
        line.capacity() == old(buf)@.len(),
        line@ == ret_opaque_line(
            encode_utf8(debug_text(funct_name.spec_or_label("[null]", "[invalid utf8]")@)),
            pointer_text(ptr),
            old(buf)@.len(),
        ),
{
    let name = funct_name.or_label("[null]", "[invalid utf8]");
    let quoted = debug_quoted(name);
    ret_opaque(buf, ptr, quoted.as_str())
}

} // verus!
