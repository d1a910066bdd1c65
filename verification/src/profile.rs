//! The PATH integrator: choosing the shell profile file, and appending an
//! export block for the binary directory exactly once. The integrator
//! never removes or rewrites existing content; running it again leaves
//! the profile unchanged.

use vstd::prelude::*;

use crate::text::{contains_seq, contains_str, lemma_occ_count_shift, lemma_occ_count_split,
    lemma_occ_count_zero, occ_count, occ_count_from, occurs_at};

verus! {

/// The export line that puts the binary directory on PATH.
pub open spec fn spec_export_line(bin_dir: Seq<char>) -> Seq<char> {
    "export PATH=\""@ + bin_dir + ":$PATH\""@
}

/// The two-line block appended to the profile: a marker comment and the
/// export line.
pub open spec fn spec_profile_block(bin_dir: Seq<char>) -> Seq<char> {
    "\n# Kopi Environment\n"@ + spec_export_line(bin_dir) + "\n"@
}

/// The profile content after one integrator run: unchanged when the
/// export line already occurs verbatim, else the block is appended.
pub open spec fn spec_integrate(content: Seq<char>, bin_dir: Seq<char>) -> Seq<char> {
    if contains_seq(content, spec_export_line(bin_dir)) {
        content
    } else {
        content + spec_profile_block(bin_dir)
    }
}

/// The profile file for a shell, recognised by a substring of the shell's
/// name; an unknown or absent shell falls back to the generic profile.
pub open spec fn spec_profile_file(home: Seq<char>, shell: Option<Seq<char>>) -> Seq<char> {
    match shell {
        Option::Some(sh) => if contains_seq(sh, "zsh"@) {
            home + "/.zshrc"@
        } else if contains_seq(sh, "bash"@) {
            home + "/.bashrc"@
        } else if contains_seq(sh, "fish"@) {
            home + "/.config/fish/config.fish"@
        } else {
            home + "/.profile"@
        },
        Option::None => home + "/.profile"@,
    }
}

/// Builds the export line for a binary directory.
pub fn export_line(bin_dir: &str) -> (r: String)
    ensures
        r@ == spec_export_line(bin_dir@),
{
    let mut s = "export PATH=\"".to_owned();
    s.append(bin_dir);
    s.append(":$PATH\"");
    s
}

/// Builds the block appended to the profile.
pub fn profile_block(bin_dir: &str) -> (r: String)
    ensures
        r@ == spec_profile_block(bin_dir@),
{
    let mut s = "\n# Kopi Environment\n".to_owned();
    let line = export_line(bin_dir);
    s.append(line.as_str());
    s.append("\n");
    s
}

/// One integrator run on the profile's current content. Returns the new
/// content and whether anything was appended.
pub fn integrate(content: &str, bin_dir: &str) -> (r: (String, bool))
    ensures
        r.0@ == spec_integrate(content@, bin_dir@),
        r.1 == !contains_seq(content@, spec_export_line(bin_dir@)),
{
    let line = export_line(bin_dir);
    if contains_str(content, line.as_str()) {
        (content.to_owned(), false)
    } else {
        let block = profile_block(bin_dir);
        let out = content.to_owned().concat(block.as_str());
        (out, true)
    }
}

/// Picks the profile file for the shell named by the environment.
pub fn profile_file(home: &str, shell: Option<&str>) -> (r: String)
    ensures
        r@ == spec_profile_file(
            home@,
            match shell {
                Option::Some(sh) => Option::Some(sh@),
                Option::None => Option::None,
            },
        ),
{
    let name: &'static str = match shell {
        Option::Some(sh) => {
            if contains_str(sh, "zsh") {
                "/.zshrc"
            } else if contains_str(sh, "bash") {
                "/.bashrc"
            } else if contains_str(sh, "fish") {
                "/.config/fish/config.fish"
            } else {
                "/.profile"
            }
        },
        Option::None => "/.profile",
    };
    let r = home.to_owned().concat(name);
    r
}

/// An occurrence of `needle` in `b` is an occurrence in `a + b`, shifted
/// by the length of `a`.
proof fn lemma_contains_in_suffix(a: Seq<char>, b: Seq<char>, needle: Seq<char>)
    requires
        contains_seq(b, needle),
    ensures
        contains_seq(a + b, needle),
{
    let i = choose|i: int| occurs_at(b, needle, i);
    assert forall|k: int| 0 <= k < needle.len() implies (a + b)[a.len() + i + k] == needle[k] by {
        assert(b.subrange(i, i + needle.len() as int)[k] == b[i + k]);
    }
    assert((a + b).subrange(a.len() + i, a.len() + i + needle.len() as int) =~= needle);
    assert(occurs_at(a + b, needle, a.len() + i));
}

/// The appended block carries the export line.
proof fn lemma_block_contains_line(bin_dir: Seq<char>)
    ensures
        contains_seq(spec_profile_block(bin_dir), spec_export_line(bin_dir)),
{
    let hdr = "\n# Kopi Environment\n"@;
    let line = spec_export_line(bin_dir);
    let block = spec_profile_block(bin_dir);
    assert forall|k: int| 0 <= k < line.len() implies block[hdr.len() + k] == line[k] by {
        assert((hdr + line)[hdr.len() + k] == line[k]);
    }
    assert(block.subrange(
        hdr.len() as int,
        hdr.len() + line.len() as int,
    ) =~= line);
    assert(occurs_at(block, line, hdr.len() as int));
}

/// After one integrator run the export line occurs in the profile.
pub proof fn lemma_integrate_establishes_line(content: Seq<char>, bin_dir: Seq<char>)
    ensures
        contains_seq(spec_integrate(content, bin_dir), spec_export_line(bin_dir)),
{
    if !contains_seq(content, spec_export_line(bin_dir)) {
        lemma_block_contains_line(bin_dir);
        lemma_contains_in_suffix(
            content,
            spec_profile_block(bin_dir),
            spec_export_line(bin_dir),
        );
    }
}

/// Idempotence of the integrator: a second run with the same binary
/// directory changes nothing, so the export block is never duplicated.
pub proof fn lemma_integrate_idempotent(content: Seq<char>, bin_dir: Seq<char>)
    ensures
        spec_integrate(spec_integrate(content, bin_dir), bin_dir) == spec_integrate(
            content,
            bin_dir,
        ),
{
    lemma_integrate_establishes_line(content, bin_dir);
}

/// No character of `s` is a newline.
pub open spec fn spec_newline_free(s: Seq<char>) -> bool {
    forall|k: int| 0 <= k < s.len() ==> s[k] != '\n'
}

/// The export line for a newline-free directory is one line: at least as
/// long as the comment above it, and itself newline-free.
proof fn lemma_line_shape(d: Seq<char>)
    requires
        spec_newline_free(d),
    ensures
        spec_export_line(d).len() == 20 + d.len(),
        spec_newline_free(spec_export_line(d)),
{
    reveal_strlit("export PATH=\"");
    reveal_strlit(":$PATH\"");
    let a = "export PATH=\""@;
    let b = ":$PATH\""@;
    let line = spec_export_line(d);
    assert forall|k: int| 0 <= k < line.len() implies line[k] != '\n' by {
        if k < a.len() {
            assert(line[k] == a[k]);
        } else if k < a.len() + d.len() {
            assert(line[k] == d[k - a.len()]);
        } else {
            assert(line[k] == b[k - a.len() - d.len()]);
        }
    }
}

/// An occurrence of the export line that begins inside `c` lies inside
/// `c`: it cannot reach across into the appended block, whose first
/// character is a newline the line never contains.
proof fn lemma_no_straddle_into_block(c: Seq<char>, d: Seq<char>)
    requires
        spec_newline_free(d),
    ensures
        forall|j: int|
            0 <= j < c.len() ==> (occurs_at(c + spec_profile_block(d), spec_export_line(d), j)
                <==> occurs_at(c, spec_export_line(d), j)),
{
    reveal_strlit("\n# Kopi Environment\n");
    lemma_line_shape(d);
    let line = spec_export_line(d);
    let block = spec_profile_block(d);
    let hdr = "\n# Kopi Environment\n"@;
    assert(block[0] == '\n') by {
        assert(block[0] == (hdr + line)[0]);
    }
    assert forall|j: int| 0 <= j < c.len() implies (occurs_at(c + block, line, j) <==> occurs_at(
        c,
        line,
        j,
    )) by {
        if j + line.len() <= c.len() {
            if occurs_at(c + block, line, j) {
                assert forall|k: int| 0 <= k < line.len() implies c[j + k] == line[k] by {
                    assert((c + block).subrange(j, j + line.len() as int)[k] == line[k]);
                }
                assert(c.subrange(j, j + line.len() as int) =~= line);
            }
            if occurs_at(c, line, j) {
                assert forall|k: int| 0 <= k < line.len() implies (c + block)[j + k]
                    == line[k] by {
                    assert(c.subrange(j, j + line.len() as int)[k] == line[k]);
                }
                assert((c + block).subrange(j, j + line.len() as int) =~= line);
            }
        } else {
            assert(!occurs_at(c, line, j));
            if occurs_at(c + block, line, j) {
                assert(line[c.len() - j] == (c + block).subrange(
                    j,
                    j + line.len() as int,
                )[c.len() - j]);
                assert(line[c.len() - j] == '\n');
            }
        }
    }
}

/// The appended block carries exactly one occurrence of the export line:
/// one cannot begin inside the comment or reach the final newline.
proof fn lemma_block_count_one(d: Seq<char>)
    requires
        spec_newline_free(d),
    ensures
        occ_count(spec_profile_block(d), spec_export_line(d)) == 1,
{
    reveal_strlit("\n# Kopi Environment\n");
    reveal_strlit("\n");
    lemma_line_shape(d);
    let line = spec_export_line(d);
    let hdr = "\n# Kopi Environment\n"@;
    let nl = "\n"@;
    let rest = line + nl;
    assert(spec_profile_block(d) =~= hdr + rest);
    // no occurrence begins inside the comment: it would cover the
    // comment's closing newline
    assert forall|j: int| 0 <= j < hdr.len() implies !occurs_at(hdr + rest, line, j) by {
        if occurs_at(hdr + rest, line, j) {
            assert(line[19 - j] == (hdr + rest).subrange(j, j + line.len() as int)[19 - j]);
            assert((hdr + rest)[19] == hdr[19]);
            assert(line[19 - j] == '\n');
        }
    }
    assert forall|j: int| 0 <= j implies !occurs_at(hdr, line, j) by {
        if occurs_at(hdr, line, j) {
            assert(line[19 - j] == hdr.subrange(j, j + line.len() as int)[19 - j]);
            assert(line[19 - j] == '\n');
        }
    }
    lemma_occ_count_zero(hdr, line, 0);
    lemma_occ_count_split(hdr, rest, line, 0);
    lemma_occ_count_shift(hdr, rest, line, 0);
    // inside the remainder the line occurs at its start and nowhere else
    assert(occurs_at(rest, line, 0)) by {
        assert(rest.subrange(0, line.len() as int) =~= line);
    }
    assert forall|i: int| 1 <= i implies !occurs_at(rest, line, i) by {
        if occurs_at(rest, line, i) {
            assert(i == 1);
            assert(line[line.len() - 1] == rest.subrange(1, 1 + line.len() as int)[line.len()
                - 1]);
            assert(rest[line.len() as int] == nl[0]);
            assert(line[line.len() - 1] == '\n');
        }
    }
    lemma_occ_count_zero(rest, line, 1);
    assert(occ_count_from(rest, line, 0) == 1 + occ_count_from(rest, line, 1));
}

/// Exactly one export line: on a profile that does not yet carry the
/// export line for `bin_dir`, one integrator run leaves exactly one
/// occurrence of it, and a second run leaves that single occurrence
/// alone. Directory paths that contain a newline are out: such a path
/// cannot stand on one profile line.
pub proof fn lemma_integrator_single_export(content: Seq<char>, bin_dir: Seq<char>)
    requires
        spec_newline_free(bin_dir),
        !contains_seq(content, spec_export_line(bin_dir)),
    ensures
        occ_count(spec_integrate(content, bin_dir), spec_export_line(bin_dir)) == 1,
        occ_count(
            spec_integrate(spec_integrate(content, bin_dir), bin_dir),
            spec_export_line(bin_dir),
        ) == 1,
{
    lemma_line_shape(bin_dir);
    let line = spec_export_line(bin_dir);
    let block = spec_profile_block(bin_dir);
    lemma_no_straddle_into_block(content, bin_dir);
    lemma_occ_count_zero(content, line, 0);
    lemma_occ_count_split(content, block, line, 0);
    lemma_occ_count_shift(content, block, line, 0);
    lemma_block_count_one(bin_dir);
    lemma_integrate_idempotent(content, bin_dir);
}

} // verus!
