//! Naming of the single-instance endpoint: one echo per config directory. On Unix the endpoint
//! is a socket file inside the directory; on Windows it is a named pipe named after a hash of
//! the directory, since pipes live in one flat namespace.

use vstd::prelude::*;
use vstd::string::StringSliceAdditionalSpecFns;

verus! {

/// FNV-1a 64-bit offset basis.
pub const FNV_OFFSET: u64 = 0xcbf2_9ce4_8422_2325;

/// FNV-1a 64-bit prime.
pub const FNV_PRIME: u64 = 0x0100_0000_01b3;

/// One FNV-1a step: xor the byte in, then multiply modulo 2^64.
pub open spec fn fnv1a_step(hash: u64, byte: u8) -> u64 {
    (((hash ^ (byte as u64)) as nat * FNV_PRIME as nat) % 0x1_0000_0000_0000_0000nat) as u64
}

/// FNV-1a over a byte sequence, folded from the left.
pub open spec fn fnv1a_spec(bytes: Seq<u8>) -> u64
    decreases bytes.len(),
{
    if bytes.len() == 0 {
        FNV_OFFSET
    } else {
        fnv1a_step(fnv1a_spec(bytes.drop_last()), bytes.last())
    }
}

/// The FNV-1a 64-bit hash of the UTF-8 bytes of `text`.
pub fn fnv1a(text: &str) -> (hash: u64)
    ensures
        hash == fnv1a_spec(text.spec_bytes()),
{
    let bytes = text.as_bytes();
    let mut hash: u64 = FNV_OFFSET;
    let mut i: usize = 0;
    while i < bytes.len()
        invariant
            i <= bytes@.len(),
            bytes@ == text.spec_bytes(),
            hash == fnv1a_spec(bytes@.take(i as int)),
        decreases bytes@.len() - i,
    {
        proof {
            assert(bytes@.take(i + 1).drop_last() =~= bytes@.take(i as int));
        }
        hash = (hash ^ (bytes[i] as u64)).wrapping_mul(FNV_PRIME);
        i = i + 1;
    }
    proof {
        assert(bytes@.take(bytes@.len() as int) =~= bytes@);
    }
    hash
}


/// Lower-case hexadecimal digits, indexed by value.
pub open spec fn hex_chars() -> Seq<char> {
    seq!['0', '1', '2', '3', '4', '5', '6', '7', '8', '9', 'a', 'b', 'c', 'd', 'e', 'f']
}

/// The `i`th of the sixteen 4-bit digits of `value`, most significant first.
pub open spec fn nibble(value: u64, i: int) -> u64 {
    (value >> ((60 - 4 * i) as u64)) & 0xf
}

/// `value` as sixteen lower-case hex digits, zero-padded (what `{:016x}` prints).
pub open spec fn hex16(value: u64) -> Seq<char> {
    Seq::new(16, |i: int| hex_chars()[nibble(value, i) as int])
}

/// The prefix every echo pipe name starts with.
pub open spec fn pipe_prefix() -> Seq<char> {
    seq!['\\', '\\', '.', '\\', 'p', 'i', 'p', 'e', '\\', 'e', 'c', 'h', 'o', '-', 'd', 'e', 's', 'k', 't', 'o', 'p', '-']
}

/// The single lower-case hex digit for `digit`.
fn hex_digit(digit: u64) -> (s: &'static str)
    requires
        digit < 16,
    ensures
        s@ == seq![hex_chars()[digit as int]],
{
    let digits = "0123456789abcdef";
    proof {
        reveal_strlit("0123456789abcdef");
    }
    let s = digits.substring_char(digit as usize, digit as usize + 1);
    proof {
        assert(s@ =~= seq![hex_chars()[digit as int]]);
    }
    s
}

/// The named pipe that stands for `config_dir` on Windows: a fixed prefix and the FNV-1a hash
/// of the directory's text as sixteen hex digits. The same directory always gets the same name.
pub fn pipe_name(config_dir: &str) -> (name: String)
    ensures
        name@ == pipe_prefix() + hex16(fnv1a_spec(config_dir.spec_bytes())),
{
    let hash = fnv1a(config_dir);
    let mut name = String::from_str("\\\\.\\pipe\\echo-desktop-");
    proof {
        reveal_strlit("\\\\.\\pipe\\echo-desktop-");
        assert(name@ =~= pipe_prefix());
    }
    let mut i: u64 = 0;
    while i < 16
        invariant
            i <= 16,
            name@ =~= pipe_prefix() + hex16(hash).take(i as int),
        decreases 16 - i,
    {
        let shift: u64 = 60 - 4 * i;
        let digit = (hash >> shift) & 0xf;
        assert(digit < 16) by (bit_vector)
            requires
                digit == (hash >> shift) & 0xf,
        ;
        name.append(hex_digit(digit));
        proof {
            assert(hex16(hash).take(i + 1) =~= hex16(hash).take(i as int).push(hex16(hash)[i as int]));
        }
        i = i + 1;
    }
    proof {
        assert(hex16(hash).take(16) =~= hex16(hash));
    }
    name
}

/// The file name of the Unix socket inside the config directory, as its ASCII bytes
/// (`echo-desktop.sock`).
pub open spec fn socket_file_name() -> Seq<u8> {
    seq![
        101u8, 99u8, 104u8, 111u8, 45u8, 100u8, 101u8, 115u8, 107u8, 116u8, 111u8, 112u8, 46u8, 115u8, 111u8,
        99u8, 107u8,
    ]
}

/// `dir` joined with the relative path `name`, as a Unix path join does it on the raw bytes of
/// the paths: a `/` (byte 47) goes between them unless `dir` is empty or already ends with one.
pub open spec fn join_path(dir: Seq<u8>, name: Seq<u8>) -> Seq<u8> {
    if dir.len() == 0 || dir.last() == 47u8 {
        dir + name
    } else {
        dir + seq![47u8] + name
    }
}

/// The Unix socket for the config directory whose path has the bytes `config_dir`: the
/// directory joined with `echo-desktop.sock`.
pub fn socket_path(config_dir: &[u8]) -> (path: Vec<u8>)
    ensures
        path@ == join_path(config_dir@, socket_file_name()),
{
    let mut path: Vec<u8> = Vec::new();
    let mut i: usize = 0;
    while i < config_dir.len()
        invariant
            i <= config_dir@.len(),
            path@ == config_dir@.take(i as int),
        decreases config_dir@.len() - i,
    {
        path.push(config_dir[i]);
        proof {
            assert(config_dir@.take(i + 1) =~= config_dir@.take(i as int).push(config_dir@[i as int]));
        }
        i = i + 1;
    }
    proof {
        assert(config_dir@.take(config_dir@.len() as int) =~= config_dir@);
    }
    let n = config_dir.len();
    if n > 0 && config_dir[n - 1] != 47u8 {
        path.push(47u8);
    }
    let ghost prefix = path@;
    let name: Vec<u8> = vec![
        101u8, 99u8, 104u8, 111u8, 45u8, 100u8, 101u8, 115u8, 107u8, 116u8, 111u8, 112u8, 46u8, 115u8, 111u8,
        99u8, 107u8,
    ];
    let mut j: usize = 0;
    while j < name.len()
        invariant
            j <= name@.len(),
            name@ == socket_file_name(),
            path@ == prefix + name@.take(j as int),
        decreases name@.len() - j,
    {
        path.push(name[j]);
        proof {
            assert(name@.take(j + 1) =~= name@.take(j as int).push(name@[j as int]));
        }
        j = j + 1;
    }
    proof {
        assert(name@.take(name@.len() as int) =~= name@);
        assert(path@ =~= join_path(config_dir@, socket_file_name()));
    }
    path
}

/// The socket lies directly inside the config directory: its path starts with the directory's
/// bytes, ends with `echo-desktop.sock`, and between them stands exactly one `/` (the
/// directory's own trailing one, or one added), none for an empty directory.
pub proof fn lemma_socket_inside_config_dir(dir: Seq<u8>)
    ensures
        ({
            let path = join_path(dir, socket_file_name());
            let name = socket_file_name();
            &&& path.subrange(0, dir.len() as int) == dir
            &&& path.subrange(path.len() - name.len(), path.len() as int) == name
            &&& dir.len() > 0 && dir.last() != 47u8 ==> path.len() == dir.len() + 1 + name.len() && path[dir.len()
                as int] == 47u8
            &&& (dir.len() == 0 || dir.last() == 47u8) ==> path.len() == dir.len() + name.len()
        }),
{
    let path = join_path(dir, socket_file_name());
    let name = socket_file_name();
    assert(path.subrange(0, dir.len() as int) =~= dir);
    assert(path.subrange(path.len() - name.len(), path.len() as int) =~= name);
}

proof fn lemma_nibble_below_sixteen(v: u64, i: int)
    requires
        0 <= i < 16,
    ensures
        nibble(v, i) < 16,
{
    let k = (60 - 4 * i) as u64;
    assert((v >> k) & 0xf < 16) by (bit_vector);
}

/// Sixteen hex digits name their value: different values never print the same, so directories
/// whose hashes differ get different pipe names.
pub proof fn lemma_hex16_names_its_value(a: u64, b: u64)
    ensures
        hex16(a).len() == 16,
        hex16(a) == hex16(b) ==> a == b,
        a != b ==> pipe_prefix() + hex16(a) != pipe_prefix() + hex16(b),
{
    if hex16(a) == hex16(b) {
        assert forall|i: int| 0 <= i < 16 implies nibble(a, i) == nibble(b, i) by {
            lemma_nibble_below_sixteen(a, i);
            lemma_nibble_below_sixteen(b, i);
            assert(hex16(a)[i] == hex16(b)[i]);
            assert(hex_chars()[nibble(a, i) as int] == hex_chars()[nibble(b, i) as int]);
        }
        assert(nibble(a, 0) == (a >> 60u64) & 0xf && nibble(b, 0) == (b >> 60u64) & 0xf &&
            nibble(a, 1) == (a >> 56u64) & 0xf && nibble(b, 1) == (b >> 56u64) & 0xf &&
            nibble(a, 2) == (a >> 52u64) & 0xf && nibble(b, 2) == (b >> 52u64) & 0xf &&
            nibble(a, 3) == (a >> 48u64) & 0xf && nibble(b, 3) == (b >> 48u64) & 0xf &&
            nibble(a, 4) == (a >> 44u64) & 0xf && nibble(b, 4) == (b >> 44u64) & 0xf &&
            nibble(a, 5) == (a >> 40u64) & 0xf && nibble(b, 5) == (b >> 40u64) & 0xf &&
            nibble(a, 6) == (a >> 36u64) & 0xf && nibble(b, 6) == (b >> 36u64) & 0xf &&
            nibble(a, 7) == (a >> 32u64) & 0xf && nibble(b, 7) == (b >> 32u64) & 0xf &&
            nibble(a, 8) == (a >> 28u64) & 0xf && nibble(b, 8) == (b >> 28u64) & 0xf &&
            nibble(a, 9) == (a >> 24u64) & 0xf && nibble(b, 9) == (b >> 24u64) & 0xf &&
            nibble(a, 10) == (a >> 20u64) & 0xf && nibble(b, 10) == (b >> 20u64) & 0xf &&
            nibble(a, 11) == (a >> 16u64) & 0xf && nibble(b, 11) == (b >> 16u64) & 0xf &&
            nibble(a, 12) == (a >> 12u64) & 0xf && nibble(b, 12) == (b >> 12u64) & 0xf &&
            nibble(a, 13) == (a >> 8u64) & 0xf && nibble(b, 13) == (b >> 8u64) & 0xf &&
            nibble(a, 14) == (a >> 4u64) & 0xf && nibble(b, 14) == (b >> 4u64) & 0xf &&
            nibble(a, 15) == (a >> 0u64) & 0xf && nibble(b, 15) == (b >> 0u64) & 0xf);
        assert((a >> 60u64) & 0xf == (b >> 60u64) & 0xf &&
            (a >> 56u64) & 0xf == (b >> 56u64) & 0xf &&
            (a >> 52u64) & 0xf == (b >> 52u64) & 0xf &&
            (a >> 48u64) & 0xf == (b >> 48u64) & 0xf &&
            (a >> 44u64) & 0xf == (b >> 44u64) & 0xf &&
            (a >> 40u64) & 0xf == (b >> 40u64) & 0xf &&
            (a >> 36u64) & 0xf == (b >> 36u64) & 0xf &&
            (a >> 32u64) & 0xf == (b >> 32u64) & 0xf &&
            (a >> 28u64) & 0xf == (b >> 28u64) & 0xf &&
            (a >> 24u64) & 0xf == (b >> 24u64) & 0xf &&
            (a >> 20u64) & 0xf == (b >> 20u64) & 0xf &&
            (a >> 16u64) & 0xf == (b >> 16u64) & 0xf &&
            (a >> 12u64) & 0xf == (b >> 12u64) & 0xf &&
            (a >> 8u64) & 0xf == (b >> 8u64) & 0xf &&
            (a >> 4u64) & 0xf == (b >> 4u64) & 0xf &&
            (a >> 0u64) & 0xf == (b >> 0u64) & 0xf) by {
            assert(nibble(a, 0) == nibble(b, 0));
            assert(nibble(a, 1) == nibble(b, 1));
            assert(nibble(a, 2) == nibble(b, 2));
            assert(nibble(a, 3) == nibble(b, 3));
            assert(nibble(a, 4) == nibble(b, 4));
            assert(nibble(a, 5) == nibble(b, 5));
            assert(nibble(a, 6) == nibble(b, 6));
            assert(nibble(a, 7) == nibble(b, 7));
            assert(nibble(a, 8) == nibble(b, 8));
            assert(nibble(a, 9) == nibble(b, 9));
            assert(nibble(a, 10) == nibble(b, 10));
            assert(nibble(a, 11) == nibble(b, 11));
            assert(nibble(a, 12) == nibble(b, 12));
            assert(nibble(a, 13) == nibble(b, 13));
            assert(nibble(a, 14) == nibble(b, 14));
            assert(nibble(a, 15) == nibble(b, 15));
        }
        assert(a == b) by (bit_vector)
            requires
                (a >> 60u64) & 0xf == (b >> 60u64) & 0xf &&
            (a >> 56u64) & 0xf == (b >> 56u64) & 0xf &&
            (a >> 52u64) & 0xf == (b >> 52u64) & 0xf &&
            (a >> 48u64) & 0xf == (b >> 48u64) & 0xf &&
            (a >> 44u64) & 0xf == (b >> 44u64) & 0xf &&
            (a >> 40u64) & 0xf == (b >> 40u64) & 0xf &&
            (a >> 36u64) & 0xf == (b >> 36u64) & 0xf &&
            (a >> 32u64) & 0xf == (b >> 32u64) & 0xf &&
            (a >> 28u64) & 0xf == (b >> 28u64) & 0xf &&
            (a >> 24u64) & 0xf == (b >> 24u64) & 0xf &&
            (a >> 20u64) & 0xf == (b >> 20u64) & 0xf &&
            (a >> 16u64) & 0xf == (b >> 16u64) & 0xf &&
            (a >> 12u64) & 0xf == (b >> 12u64) & 0xf &&
            (a >> 8u64) & 0xf == (b >> 8u64) & 0xf &&
            (a >> 4u64) & 0xf == (b >> 4u64) & 0xf &&
            (a >> 0u64) & 0xf == (b >> 0u64) & 0xf,
        ;
    }
    if a != b {
        if pipe_prefix() + hex16(a) == pipe_prefix() + hex16(b) {
            let n = pipe_prefix().len() as int;
            assert((pipe_prefix() + hex16(a)).subrange(n, n + 16) =~= hex16(a));
            assert((pipe_prefix() + hex16(b)).subrange(n, n + 16) =~= hex16(b));
        }
    }
}

} // verus!
