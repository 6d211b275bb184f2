//! The Markdown note of one package, and where it is stored.
use vstd::prelude::*;
use crate::ident::{has_suffix, normalized, normalize_id};
use crate::json::texts;
use crate::record::{PackageRecord, PackageView, opt_text};

verus! {

/// `items`, each between `pre` and `post`, one after another.
pub open spec fn lines(items: Seq<Seq<char>>, pre: Seq<char>, post: Seq<char>) -> Seq<char>
    decreases items.len(),
{
    if items.len() == 0 {
        seq![]
    } else {
        lines(items.drop_last(), pre, post) + pre + items.last() + post
    }
}

/// `items` in backquotes, separated by commas.
pub open spec fn code_list(items: Seq<Seq<char>>) -> Seq<char>
    decreases items.len(),
{
    if items.len() == 0 {
        seq![]
    } else {
        let sep = if items.len() == 1 { seq![] } else { ", "@ };
        code_list(items.drop_last()) + sep + "`"@ + items.last() + "`"@
    }
}

/// `s` where `b` holds, else nothing.
pub open spec fn provided(b: bool, s: Seq<char>) -> Seq<char> {
    if b { s } else { seq![] }
}

/// The title: the package's name as a heading.
pub open spec fn title_section(p: PackageView) -> Seq<char> {
    "# "@ + p.name + "\n\n"@
}

/// The tag line: always `#nixpkgs #package`, then `#broken` and
/// `#unavailable` where they apply.
pub open spec fn tag_line(p: PackageView) -> Seq<char> {
    "#nixpkgs #package"@ + provided(p.broken, " #broken"@) + provided(!p.available, " #unavailable"@)
        + "\n\n"@
}

/// The heading of the metadata block, the name and, where present, the version.
pub open spec fn name_lines(p: PackageView) -> Seq<char> {
    "## 📋 Package Information\n\n"@ + "- **Name**: `"@ + p.name + "`\n"@
        + provided(p.version.len() > 0, "- **Version**: `"@ + p.version + "`\n"@)
}

/// The availability line.
pub open spec fn available_line(p: PackageView) -> Seq<char> {
    "- **Available**: "@ + (if p.available { "✅ Yes"@ } else { "❌ No"@ }) + "\n"@
}

/// The brokenness line.
pub open spec fn broken_line(p: PackageView) -> Seq<char> {
    "- **Broken**: "@ + (if p.broken { "⚠️ Yes"@ } else { "✅ No"@ }) + "\n"@
}

/// The description and homepage lines, each where present.
pub open spec fn about_lines(p: PackageView) -> Seq<char> {
    (match p.description {
        Some(d) => "- **Description**: "@ + d + "\n"@,
        None => seq![],
    }) + (match p.homepage {
        Some(h) => "- **Homepage**: ["@ + h + "]("@ + h + ")\n"@,
        None => seq![],
    })
}

/// The licence and platforms lines, each where present.
pub open spec fn license_lines(p: PackageView) -> Seq<char> {
    provided(p.license_short_name.len() > 0, "- **License**: `"@ + p.license_short_name + "`\n"@)
        + provided(p.platforms.len() > 0, "- **Platforms**: "@ + code_list(p.platforms) + "\n"@)
}

/// The metadata block: name, version, availability, brokenness, description,
/// homepage, licence and platforms, each where present.
pub open spec fn info_section(p: PackageView) -> Seq<char> {
    name_lines(p) + available_line(p) + broken_line(p) + about_lines(p) + license_lines(p) + "\n"@
}

/// The long description, where there is one.
pub open spec fn long_description_section(p: PackageView) -> Seq<char> {
    match p.long_description {
        Some(d) => "## 📝 Description\n\n"@ + d + "\n\n"@,
        None => seq![],
    }
}

/// One line per maintainer, where there are any.
pub open spec fn maintainers_section(p: PackageView) -> Seq<char> {
    provided(p.maintainers.len() > 0, "## 👥 Maintainers\n\n"@ + lines(p.maintainers, "- "@, "\n"@) + "\n"@)
}

/// The derivation's identifier and, where there are any, its outputs.
pub open spec fn build_section(p: PackageView) -> Seq<char> {
    "## 🔧 Build Information\n\n"@ + "- **Derivation Path**: `"@ + p.drv_path + "`\n"@
        + provided(p.outputs.len() > 0, "- **Outputs**: "@ + code_list(p.outputs) + "\n"@)
        + "\n"@
}

/// The link targets of a package's dependencies: their stable identifiers.
pub open spec fn dependency_links(p: PackageView) -> Seq<Seq<char>> {
    p.dependencies.map_values(|d: Seq<char>| normalized(d))
}

/// One link per dependency, where there are any.
pub open spec fn dependencies_section(p: PackageView) -> Seq<char> {
    provided(p.dependencies.len() > 0, "## 🔗 Dependencies\n\n"@ + lines(dependency_links(p), "- [["@, "]]\n"@) + "\n"@)
}

/// One line per input source, where there are any.
pub open spec fn sources_section(p: PackageView) -> Seq<char> {
    provided(p.input_srcs.len() > 0, "## 📁 Input Sources\n\n"@ + lines(p.input_srcs, "- `"@, "`\n"@) + "\n"@)
}

/// Everything of the note but its last line.
pub open spec fn note_body(p: PackageView) -> Seq<char> {
    title_section(p) + tag_line(p) + info_section(p) + long_description_section(p)
        + maintainers_section(p) + build_section(p) + dependencies_section(p) + sources_section(p)
        + "---\n"@
}

/// The last line: when the note was written.
pub open spec fn footer(timestamp: Seq<char>) -> Seq<char> {
    "*Generated on "@ + timestamp + "*\n"@
}

/// The note of a package, written at `timestamp`.
pub open spec fn note(p: PackageView, timestamp: Seq<char>) -> Seq<char> {
    note_body(p) + footer(timestamp)
}

/// The stem of the note's file name: the stable identifier of the package's
/// derivation, or its name where it has none.
pub open spec fn note_stem(p: PackageView) -> Seq<char> {
    if p.drv_path.len() > 0 {
        normalized(p.drv_path)
    } else {
        p.name
    }
}

/// The note's file name.
pub open spec fn note_file_name(p: PackageView) -> Seq<char> {
    note_stem(p) + ".md"@
}

/// The directory that holds the notes.
pub open spec fn packages_dir_of(outdir: Seq<char>) -> Seq<char> {
    outdir + "/packages"@
}

/// Where the note is stored under `outdir`.
pub open spec fn note_path_of(outdir: Seq<char>, p: PackageView) -> Seq<char> {
    packages_dir_of(outdir) + "/"@ + note_file_name(p)
}

/// Appends `items`, each between `pre` and `post`.
fn append_lines(out: &mut String, items: &Vec<String>, pre: &str, post: &str)
    ensures
        final(out)@ == old(out)@ + lines(texts(items@), pre@, post@),
{
    let ghost start = out@;
    let n = items.len();
    let mut i: usize = 0;
    while i < n
        invariant
            n == items@.len(),
            i <= n,
            out@ == start + lines(texts(items@.subrange(0, i as int)), pre@, post@),
        decreases n - i,
    {
        let ghost before = texts(items@.subrange(0, i as int));
        out.append(pre);
        out.append(items[i].as_str());
        out.append(post);
        assert(texts(items@.subrange(0, i + 1)).drop_last() =~= before);
        assert(out@ =~= start + lines(texts(items@.subrange(0, i + 1)), pre@, post@));
        i = i + 1;
    }
    assert(items@.subrange(0, n as int) =~= items@);
}

/// Appends `items` in backquotes, separated by commas.
fn append_code_list(out: &mut String, items: &Vec<String>)
    ensures
        final(out)@ == old(out)@ + code_list(texts(items@)),
{
    let ghost start = out@;
    let n = items.len();
    let mut i: usize = 0;
    while i < n
        invariant
            n == items@.len(),
            i <= n,
            out@ == start + code_list(texts(items@.subrange(0, i as int))),
        decreases n - i,
    {
        let ghost before = texts(items@.subrange(0, i as int));
        if i > 0 {
            out.append(", ");
        }
        out.append("`");
        out.append(items[i].as_str());
        out.append("`");
        assert(texts(items@.subrange(0, i + 1)).drop_last() =~= before);
        assert(out@ =~= start + code_list(texts(items@.subrange(0, i + 1))));
        i = i + 1;
    }
    assert(items@.subrange(0, n as int) =~= items@);
}

/// The stable identifiers of `ids`, in order.
fn normalize_all(ids: &Vec<String>) -> (r: Vec<String>)
    ensures
        texts(r@) == texts(ids@).map_values(|d: Seq<char>| normalized(d)),
{
    let mut r: Vec<String> = Vec::new();
    let n = ids.len();
    let mut i: usize = 0;
    while i < n
        invariant
            n == ids@.len(),
            i <= n,
            r@.len() == i,
            forall|j: int| 0 <= j < i ==> r@[j]@ == normalized(ids@[j]@),
        decreases n - i,
    {
        r.push(normalize_id(ids[i].as_str()));
        i = i + 1;
    }
    assert(texts(r@) =~= texts(ids@).map_values(|d: Seq<char>| normalized(d)));
    r
}

/// Appends the title and the tag line.
fn append_heading(out: &mut String, r: &PackageRecord)
    ensures
        final(out)@ == old(out)@ + title_section(r@) + tag_line(r@),
{
    let ghost start = out@;
    out.append("# ");
    out.append(r.name.as_str());
    out.append("\n\n");
    out.append("#nixpkgs #package");
    if r.broken {
        out.append(" #broken");
    }
    if !r.available {
        out.append(" #unavailable");
    }
    out.append("\n\n");
    assert(out@ =~= start + title_section(r@) + tag_line(r@));
}

/// Appends the heading of the metadata block, the name and the version.
fn append_name_lines(out: &mut String, r: &PackageRecord)
    ensures
        final(out)@ == old(out)@ + name_lines(r@),
{
    let ghost start = out@;
    out.append("## 📋 Package Information\n\n");
    out.append("- **Name**: `");
    out.append(r.name.as_str());
    out.append("`\n");
    if r.version.unicode_len() > 0 {
        out.append("- **Version**: `");
        out.append(r.version.as_str());
        out.append("`\n");
    }
    assert(out@ =~= start + name_lines(r@));
}

/// Appends the availability and brokenness lines.
fn append_flag_lines(out: &mut String, r: &PackageRecord)
    ensures
        final(out)@ == old(out)@ + available_line(r@) + broken_line(r@),
{
    let ghost start = out@;
    out.append("- **Available**: ");
    if r.available {
        out.append("✅ Yes");
    } else {
        out.append("❌ No");
    }
    out.append("\n");
    assert(out@ =~= start + available_line(r@));
    let ghost mid = out@;
    out.append("- **Broken**: ");
    if r.broken {
        out.append("⚠️ Yes");
    } else {
        out.append("✅ No");
    }
    out.append("\n");
    assert(out@ =~= mid + broken_line(r@));
}

/// Appends the description and homepage lines.
fn append_about_lines(out: &mut String, r: &PackageRecord)
    ensures
        final(out)@ == old(out)@ + about_lines(r@),
{
    let ghost start = out@;
    match &r.description {
        Some(d) => {
            out.append("- **Description**: ");
            out.append(d.as_str());
            out.append("\n");
        },
        None => {},
    }
    let ghost mid = out@;
    match &r.homepage {
        Some(h) => {
            out.append("- **Homepage**: [");
            out.append(h.as_str());
            out.append("](");
            out.append(h.as_str());
            out.append(")\n");
        },
        None => {},
    }
    assert(out@ =~= start + about_lines(r@));
}

/// Appends the licence and platforms lines.
fn append_license_lines(out: &mut String, r: &PackageRecord)
    ensures
        final(out)@ == old(out)@ + license_lines(r@),
{
    let ghost start = out@;
    if r.license_short_name.unicode_len() > 0 {
        out.append("- **License**: `");
        out.append(r.license_short_name.as_str());
        out.append("`\n");
    }
    let ghost mid = out@;
    if r.platforms.len() > 0 {
        out.append("- **Platforms**: ");
        append_code_list(out, &r.platforms);
        out.append("\n");
    }
    assert(out@ =~= start + license_lines(r@));
}

/// Appends the metadata block.
fn append_info(out: &mut String, r: &PackageRecord)
    ensures
        final(out)@ == old(out)@ + info_section(r@),
{
    let ghost start = out@;
    append_name_lines(out, r);
    append_flag_lines(out, r);
    append_about_lines(out, r);
    append_license_lines(out, r);
    out.append("\n");
    assert(out@ =~= start + info_section(r@));
}

/// Appends the long description and the maintainers.
fn append_people(out: &mut String, r: &PackageRecord)
    ensures
        final(out)@ == old(out)@ + long_description_section(r@) + maintainers_section(r@),
{
    let ghost start = out@;
    match &r.long_description {
        Some(d) => {
            out.append("## 📝 Description\n\n");
            out.append(d.as_str());
            out.append("\n\n");
        },
        None => {},
    }
    let ghost mid = out@;
    assert(mid =~= start + long_description_section(r@));
    if r.maintainers.len() > 0 {
        out.append("## 👥 Maintainers\n\n");
        append_lines(out, &r.maintainers, "- ", "\n");
        out.append("\n");
    }
    assert(out@ =~= mid + maintainers_section(r@));
}

/// Appends the build information.
fn append_build(out: &mut String, r: &PackageRecord)
    ensures
        final(out)@ == old(out)@ + build_section(r@),
{
    let ghost start = out@;
    out.append("## 🔧 Build Information\n\n");
    out.append("- **Derivation Path**: `");
    out.append(r.drv_path.as_str());
    out.append("`\n");
    let ghost mid = out@;
    if r.outputs.len() > 0 {
        out.append("- **Outputs**: ");
        append_code_list(out, &r.outputs);
        out.append("\n");
    }
    out.append("\n");
    assert(out@ =~= start + build_section(r@));
}

/// Appends the dependency links and the input sources.
fn append_links(out: &mut String, r: &PackageRecord)
    ensures
        final(out)@ == old(out)@ + dependencies_section(r@) + sources_section(r@),
{
    let ghost start = out@;
    if r.dependencies.len() > 0 {
        out.append("## 🔗 Dependencies\n\n");
        let links = normalize_all(&r.dependencies);
        assert(texts(links@) == dependency_links(r@));
        append_lines(out, &links, "- [[", "]]\n");
        out.append("\n");
    }
    let ghost mid = out@;
    assert(mid =~= start + dependencies_section(r@));
    if r.input_srcs.len() > 0 {
        out.append("## 📁 Input Sources\n\n");
        append_lines(out, &r.input_srcs, "- `", "`\n");
        out.append("\n");
    }
    assert(out@ =~= start + dependencies_section(r@) + sources_section(r@));
}

/// The note of `r`, written at `timestamp`.
pub fn render_note(r: &PackageRecord, timestamp: &str) -> (s: String)
    ensures
        s@ == note(r@, timestamp@),
{
    let mut out = String::new();
    append_heading(&mut out, r);
    append_info(&mut out, r);
    append_people(&mut out, r);
    append_build(&mut out, r);
    append_links(&mut out, r);
    out.append("---\n");
    let ghost body = out@;
    assert(body =~= note_body(r@));
    out.append("*Generated on ");
    out.append(timestamp);
    out.append("*\n");
    assert(out@ =~= note(r@, timestamp@));
    out
}

/// The UTC time `secs` seconds after the Unix epoch, as
/// `YYYY-MM-DD HH:MM:SS UTC`; `None` where it lies outside the dates that can
/// be written.
pub uninterp spec fn utc_stamp(secs: int) -> Option<Seq<char>>;

/// Relies on chrono's `DateTime::<Utc>::from_timestamp` (`None` for seconds
/// out of its range) and on its strftime formatting, which copies the
/// pattern's closing ` UTC` as it stands.
#[verifier::external_body]
fn format_utc(secs: i64) -> (r: Option<String>)
    ensures
        opt_text(r) == utc_stamp(secs as int),
        r matches Some(s) ==> has_suffix(s@, " UTC"@),
{
    chrono::DateTime::<chrono::Utc>::from_timestamp(secs, 0)
        .map(|t| t.format("%Y-%m-%d %H:%M:%S UTC").to_string())
}

/// The time stamp of a note written `secs` seconds after the Unix epoch; `None`
/// where that time cannot be written as a date.
pub fn stamp_at(secs: u64) -> (r: Option<String>)
    ensures
        secs <= i64::MAX ==> opt_text(r) == utc_stamp(secs as int),
        secs > i64::MAX ==> r is None,
        r matches Some(s) ==> has_suffix(s@, " UTC"@),
{
    if secs > i64::MAX as u64 {
        None
    } else {
        format_utc(secs as i64)
    }
}

/// The file name of the note of `r`.
pub fn note_file(r: &PackageRecord) -> (s: String)
    ensures
        s@ == note_file_name(r@),
{
    let mut s = if r.drv_path.unicode_len() > 0 {
        normalize_id(r.drv_path.as_str())
    } else {
        r.name.clone()
    };
    s.append(".md");
    s
}

/// The directory under `outdir` that holds the notes.
pub fn packages_dir(outdir: &str) -> (s: String)
    ensures
        s@ == packages_dir_of(outdir@),
{
    let mut s = String::from_str(outdir);
    s.append("/packages");
    s
}

/// Where the note of `r` is stored under `outdir`.
pub fn note_path(outdir: &str, r: &PackageRecord) -> (s: String)
    ensures
        s@ == note_path_of(outdir@, r@),
{
    let mut s = packages_dir(outdir);
    s.append("/");
    let name = note_file(r);
    s.append(name.as_str());
    assert(s@ =~= note_path_of(outdir@, r@));
    s
}

} // verus!
