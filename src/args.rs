use vstd::prelude::*;

verus! {

/// One positional argument of a host call, as the native side reads it.
#[derive(Debug, Clone, PartialEq)]
pub enum HostValue {
    /// A string argument.
    Str(String),
    /// A numeric argument, given as the bit pattern of the host's 64-bit
    /// float.
    Number(u64),
    /// An argument of any other type, or one whose value could not be read.
    Other,
}

/// The argument at position `pos`, or `None` where the list has none there.
pub open spec fn arg_at(args: Seq<HostValue>, pos: int) -> Option<HostValue> {
    if 0 <= pos < args.len() {
        Some(args[pos])
    } else {
        None
    }
}

/// The string at position `pos` of `args`; `None` where there is no
/// argument at that position or it is not a string.
pub fn args_get_str(args: &[HostValue], pos: i32) -> (r: Option<String>)
    ensures
        match arg_at(args@, pos as int) {
            Some(HostValue::Str(s)) => r == Some(s),
            _ => r is None,
        },
{
    if pos < 0 || pos as usize >= args.len() {
        return None;
    }
    match &args[pos as usize] {
        HostValue::Str(s) => Some(s.clone()),
        _ => None,
    }
}

/// The number at position `pos` of `args`, as its 64-bit float bit pattern;
/// `None` where there is no argument at that position or it is not a number.
pub fn args_get_number(args: &[HostValue], pos: i32) -> (r: Option<u64>)
    ensures
        match arg_at(args@, pos as int) {
            Some(HostValue::Number(bits)) => r == Some(bits),
            _ => r is None,
        },
{
    if pos < 0 || pos as usize >= args.len() {
        return None;
    }
    match &args[pos as usize] {
        HostValue::Number(bits) => Some(*bits),
        _ => None,
    }
}

} // verus!
