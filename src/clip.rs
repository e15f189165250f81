//! Clip extraction and repair: the transcoding tool's argument profiles and
//! the decisions between its runs. The host runs the tool and removes files.
use vstd::prelude::*;
use vstd::string::StringExecFns;
use crate::paths::{
    extension, extension_of, file_name, file_name_of, has_extension, join, join_spec, parent,
    parent_of, stem, stem_of, str_eq,
};

verus! {

pub open spec fn views(s: Seq<String>) -> Seq<Seq<char>> {
    s.map_values(|a: String| a@)
}

/// Appends a copy of `s` to `args`.
fn push_arg(args: &mut Vec<String>, s: &str)
    ensures
        views(final(args)@) == views(old(args)@).push(s@),
{
    args.push(String::from_str(s));
    proof {
        assert(views(args@) =~= views(old(args)@).push(s@));
    }
}

/// Arguments that cut `[from, to)` out of `source` into `dest` by copying
/// streams; both bounds are positions in the source's timeline.
pub open spec fn trim_args_spec(from: Seq<char>, to: Seq<char>, source: Seq<char>, dest: Seq<char>) -> Seq<
    Seq<char>,
> {
    seq!["-ss"@, from, "-to"@, to, "-i"@, source, "-c"@, "copy"@, dest]
}

/// Arguments that re-encode `source` into `dest` as VP9 video with Opus audio.
pub open spec fn transcode_args_spec(source: Seq<char>, dest: Seq<char>) -> Seq<Seq<char>> {
    seq![
        "-i"@,
        source,
        "-c:v"@,
        "libvpx-vp9"@,
        "-crf"@,
        "30"@,
        "-b:v"@,
        "0"@,
        "-b:a"@,
        "128k"@,
        "-c:a"@,
        "libopus"@,
        dest,
    ]
}

/// Arguments that re-encode `source` into `dest` as H.264 video with AAC audio,
/// with the index moved to the front for streaming.
pub open spec fn repair_args_spec(source: Seq<char>, dest: Seq<char>) -> Seq<Seq<char>> {
    seq![
        "-i"@,
        source,
        "-c:v"@,
        "libx264"@,
        "-c:a"@,
        "aac"@,
        "-b:a"@,
        "192k"@,
        "-movflags"@,
        "+faststart"@,
        "-strict"@,
        "experimental"@,
        dest,
    ]
}

pub fn trim_args(from: &str, to: &str, source: &str, dest: &str) -> (r: Vec<String>)
    ensures
        views(r@) == trim_args_spec(from@, to@, source@, dest@),
{
    let mut a: Vec<String> = Vec::new();
    push_arg(&mut a, "-ss");
    push_arg(&mut a, from);
    push_arg(&mut a, "-to");
    push_arg(&mut a, to);
    push_arg(&mut a, "-i");
    push_arg(&mut a, source);
    push_arg(&mut a, "-c");
    push_arg(&mut a, "copy");
    push_arg(&mut a, dest);
    assert(views(a@) =~= trim_args_spec(from@, to@, source@, dest@));
    a
}

pub fn transcode_args(source: &str, dest: &str) -> (r: Vec<String>)
    ensures
        views(r@) == transcode_args_spec(source@, dest@),
{
    let mut a: Vec<String> = Vec::new();
    push_arg(&mut a, "-i");
    push_arg(&mut a, source);
    push_arg(&mut a, "-c:v");
    push_arg(&mut a, "libvpx-vp9");
    push_arg(&mut a, "-crf");
    push_arg(&mut a, "30");
    push_arg(&mut a, "-b:v");
    push_arg(&mut a, "0");
    push_arg(&mut a, "-b:a");
    push_arg(&mut a, "128k");
    push_arg(&mut a, "-c:a");
    push_arg(&mut a, "libopus");
    push_arg(&mut a, dest);
    assert(views(a@) =~= transcode_args_spec(source@, dest@));
    a
}

pub fn repair_args(source: &str, dest: &str) -> (r: Vec<String>)
    ensures
        views(r@) == repair_args_spec(source@, dest@),
{
    let mut a: Vec<String> = Vec::new();
    push_arg(&mut a, "-i");
    push_arg(&mut a, source);
    push_arg(&mut a, "-c:v");
    push_arg(&mut a, "libx264");
    push_arg(&mut a, "-c:a");
    push_arg(&mut a, "aac");
    push_arg(&mut a, "-b:a");
    push_arg(&mut a, "192k");
    push_arg(&mut a, "-movflags");
    push_arg(&mut a, "+faststart");
    push_arg(&mut a, "-strict");
    push_arg(&mut a, "experimental");
    push_arg(&mut a, dest);
    assert(views(a@) =~= repair_args_spec(source@, dest@));
    a
}

/// `base` with the extension `ext` appended after a dot.
pub open spec fn with_ext_spec(base: Seq<char>, ext: Seq<char>) -> Seq<char> {
    base + "."@ + ext
}

fn with_ext(base: &str, ext: &str) -> (r: String)
    ensures
        r@ == with_ext_spec(base@, ext@),
{
    let mut r = String::from_str(base);
    r.append(".");
    r.append(ext);
    r
}

/// A planned clip: the two commands that may run and the files they write.
pub struct ClipPlan {
    /// Where the stream-copy trim writes, with the source's extension.
    pub trimmed_path: String,
    /// Where the re-encode writes, with the target extension.
    pub converted_path: String,
    /// Whether the target extension differs from the source's, so a re-encode follows the trim.
    pub needs_conversion: bool,
    pub trim_args: Vec<String>,
    pub convert_args: Vec<String>,
}

/// What a valid clip request plans, in terms of its inputs.
pub open spec fn clip_plan_spec(
    plan: ClipPlan,
    source: Seq<char>,
    base_dir: Seq<char>,
    from: Seq<char>,
    to: Seq<char>,
    clip_name: Seq<char>,
    target: Seq<char>,
) -> bool {
    let source_ext = extension_of(file_name_of(source));
    &&& plan.trimmed_path@ == join_spec(base_dir, with_ext_spec(clip_name, source_ext))
    &&& plan.converted_path@ == join_spec(base_dir, with_ext_spec(clip_name, target))
    &&& plan.needs_conversion == (source_ext != target)
    &&& views(plan.trim_args@) == trim_args_spec(from, to, source, plan.trimmed_path@)
    &&& views(plan.convert_args@) == transcode_args_spec(
        plan.trimmed_path@,
        plan.converted_path@,
    )
}

/// Plans a clip of `source_path_string` from the start time `from` to the end
/// time `to` (the tool's time syntax), named `clip_name` in `base_dir`, with
/// extension `extension_wanted`.
/// The source must be a regular file with an extension.
pub fn snip_file_to_base_dir(
    source_path_string: &str,
    source_is_file: bool,
    base_dir: &str,
    from: &str,
    to: &str,
    clip_name: &str,
    extension_wanted: &str,
) -> (r: Result<ClipPlan, String>)
    ensures
        !source_is_file ==> r is Err && r->Err_0@ == "Source path is not a file"@,
        source_is_file && !has_extension(file_name_of(source_path_string@)) ==> r is Err
            && r->Err_0@ == "Source path has no extension"@,
        source_is_file && has_extension(file_name_of(source_path_string@)) ==> r is Ok
            && clip_plan_spec(
            r->Ok_0,
            source_path_string@,
            base_dir@,
            from@,
            to@,
            clip_name@,
            extension_wanted@,
        ),
{
    if !source_is_file {
        return Err(String::from_str("Source path is not a file"));
    }
    let name = file_name(source_path_string);
    let source_ext = extension(name);
    if !has_dot_extension(name) {
        return Err(String::from_str("Source path has no extension"));
    }
    let trimmed = join(base_dir, with_ext(clip_name, source_ext).as_str());
    let converted = join(base_dir, with_ext(clip_name, extension_wanted).as_str());
    let trim = trim_args(from, to, source_path_string, trimmed.as_str());
    let convert = transcode_args(trimmed.as_str(), converted.as_str());
    let needs_conversion = !str_eq(source_ext, extension_wanted);
    Ok(
        ClipPlan {
            trimmed_path: trimmed,
            converted_path: converted,
            needs_conversion,
            trim_args: trim,
            convert_args: convert,
        },
    )
}

/// Whether a file name has an extension (possibly empty, as in `a.`).
fn has_dot_extension(name: &str) -> (r: bool)
    ensures
        r == has_extension(name@),
{
    match crate::paths::rfind_char(name, '.') {
        Some(k) => k > 0,
        None => false,
    }
}

/// The stage of a clip whose tool run has just finished.
#[derive(Clone, Copy, Debug, PartialEq, Eq, Structural)]
pub enum ClipStage {
    Trim,
    Convert,
}

/// What the host does next for a clip.
pub enum ClipAction {
    /// Run the tool with the plan's arguments for this stage.
    Run(ClipStage),
    /// Remove the intermediate file, then report the path as the result.
    RemoveThenFinish { remove: String, result: String },
    /// Report this result; nothing else is left to do.
    Finish(Result<String, String>),
}

/// The first action of every clip: the trim.
pub fn clip_start() -> (r: ClipAction)
    ensures
        r == ClipAction::Run(ClipStage::Trim),
{
    ClipAction::Run(ClipStage::Trim)
}

/// The abstract next step after a stage finished with `succeeded`:
/// 0 run the conversion, 1 remove the intermediate and finish, 2 finish with
/// the trimmed file, 3 fail.
pub open spec fn clip_next_spec(needs_conversion: bool, stage: ClipStage, succeeded: bool) -> int {
    if !succeeded {
        3
    } else if stage == ClipStage::Convert {
        1
    } else if needs_conversion {
        0
    } else {
        2
    }
}

/// The decision after a tool run of `stage` finished, successfully or not.
pub fn clip_after_run(plan: &ClipPlan, stage: ClipStage, succeeded: bool) -> (r: ClipAction)
    ensures
        clip_next_spec(plan.needs_conversion, stage, succeeded) == 0 ==> r == ClipAction::Run(
            ClipStage::Convert,
        ),
        clip_next_spec(plan.needs_conversion, stage, succeeded) == 1 ==> (r matches ClipAction::RemoveThenFinish { remove, result }
            && remove@ == plan.trimmed_path@ && result@ == plan.converted_path@),
        clip_next_spec(plan.needs_conversion, stage, succeeded) == 2 ==> (r matches ClipAction::Finish(Ok(p))
            && p@ == plan.trimmed_path@),
        clip_next_spec(plan.needs_conversion, stage, succeeded) == 3 && stage == ClipStage::Trim
            ==> (r matches ClipAction::Finish(Err(e)) && e@ == "Failed to execute FFmpeg"@),
        clip_next_spec(plan.needs_conversion, stage, succeeded) == 3 && stage == ClipStage::Convert
            ==> (r matches ClipAction::Finish(Err(e)) && e@ == "could not convert"@),
{
    if !succeeded {
        match stage {
            ClipStage::Trim => ClipAction::Finish(Err(String::from_str("Failed to execute FFmpeg"))),
            ClipStage::Convert => ClipAction::Finish(Err(String::from_str("could not convert"))),
        }
    } else {
        match stage {
            ClipStage::Convert => ClipAction::RemoveThenFinish {
                remove: plan.trimmed_path.clone(),
                result: plan.converted_path.clone(),
            },
            ClipStage::Trim => {
                if plan.needs_conversion {
                    ClipAction::Run(ClipStage::Convert)
                } else {
                    ClipAction::Finish(Ok(plan.trimmed_path.clone()))
                }
            },
        }
    }
}

/// With the target extension equal to the source's, the clip is one stream
/// copy of `[from, to)` into `base_dir/clip_name.<extension>`, and its success
/// ends the clip with that file as the result, so no intermediate is left.
pub proof fn lemma_clip_same_extension(
    plan: ClipPlan,
    source: Seq<char>,
    base_dir: Seq<char>,
    from: Seq<char>,
    to: Seq<char>,
    clip_name: Seq<char>,
    target: Seq<char>,
)
    requires
        clip_plan_spec(plan, source, base_dir, from, to, clip_name, target),
        extension_of(file_name_of(source)) == target,
    ensures
        !plan.needs_conversion,
        views(plan.trim_args@) == trim_args_spec(from, to, source, plan.trimmed_path@),
        plan.trimmed_path@ == join_spec(base_dir, with_ext_spec(clip_name, target)),
        clip_next_spec(plan.needs_conversion, ClipStage::Trim, true) == 2,
{
}

/// With a different target extension, a successful trim is followed by one
/// conversion, after whose success the intermediate is removed; it is a
/// different file from the result.
pub proof fn lemma_clip_cross_extension(
    plan: ClipPlan,
    source: Seq<char>,
    base_dir: Seq<char>,
    from: Seq<char>,
    to: Seq<char>,
    clip_name: Seq<char>,
    target: Seq<char>,
)
    requires
        clip_plan_spec(plan, source, base_dir, from, to, clip_name, target),
        plan.needs_conversion,
    ensures
        clip_next_spec(plan.needs_conversion, ClipStage::Trim, true) == 0,
        clip_next_spec(plan.needs_conversion, ClipStage::Convert, true) == 1,
        plan.trimmed_path@ != plan.converted_path@,
{
    let source_ext = extension_of(file_name_of(source));
    let a = with_ext_spec(clip_name, source_ext);
    let b = with_ext_spec(clip_name, target);
    let k = clip_name.len() as int + 1;
    reveal_strlit(".");
    if plan.trimmed_path@ == plan.converted_path@ {
        lemma_join_injective(base_dir, a, b);
        assert(a.subrange(k, a.len() as int) =~= source_ext);
        assert(b.subrange(k, b.len() as int) =~= target);
    }
}

/// Joining to the same directory keeps distinct names distinct.
pub proof fn lemma_join_injective(dir: Seq<char>, a: Seq<char>, b: Seq<char>)
    requires
        join_spec(dir, a) == join_spec(dir, b),
    ensures
        a == b,
{
    if dir.len() == 0 {
    } else if dir.last() == '/' {
        assert(a =~= (dir + a).subrange(dir.len() as int, (dir + a).len() as int));
        assert(b =~= (dir + b).subrange(dir.len() as int, (dir + b).len() as int));
    } else {
        let d = dir + seq!['/'];
        assert(a =~= (d + a).subrange(d.len() as int, (d + a).len() as int));
        assert(b =~= (d + b).subrange(d.len() as int, (d + b).len() as int));
    }
}

/// A planned repair: the new file's path and the tool's arguments.
pub struct RepairPlan {
    pub dest_path: String,
    pub args: Vec<String>,
}

/// `<stem>_fixed.<extension>` beside the source.
pub open spec fn repaired_path_spec(source: Seq<char>) -> Seq<char> {
    parent_of(source) + stem_of(file_name_of(source)) + "_fixed."@ + extension_of(
        file_name_of(source),
    )
}

/// Plans the repair of `source_path_string`, which must be a regular file.
pub fn try_fixing_file(source_path_string: &str, source_is_file: bool) -> (r: Result<
    RepairPlan,
    String,
>)
    ensures
        !source_is_file ==> r is Err && r->Err_0@ == "File not found"@,
        source_is_file ==> r is Ok && r->Ok_0.dest_path@ == repaired_path_spec(source_path_string@)
            && views(r->Ok_0.args@) == repair_args_spec(
            source_path_string@,
            r->Ok_0.dest_path@,
        ),
{
    if !source_is_file {
        return Err(String::from_str("File not found"));
    }
    let name = file_name(source_path_string);
    let mut dest = String::from_str(parent(source_path_string));
    dest.append(stem(name));
    dest.append("_fixed.");
    dest.append(extension(name));
    let args = repair_args(source_path_string, dest.as_str());
    Ok(RepairPlan { dest_path: dest, args })
}

/// The result of a repair once the tool ran: the new path, or the failure.
/// `run` is `Ok(succeeded)` where the tool ran, else the spawn error's message.
pub fn repair_result(plan: RepairPlan, run: Result<bool, String>) -> (r: Result<String, String>)
    ensures
        match run {
            Ok(true) => r == Ok::<String, String>(plan.dest_path),
            Ok(false) => r is Err && r->Err_0@ == "Failed to execute FFmpeg"@,
            Err(e) => r == Err::<String, String>(e),
        },
{
    match run {
        Ok(true) => Ok(plan.dest_path),
        Ok(false) => Err(String::from_str("Failed to execute FFmpeg")),
        Err(e) => Err(e),
    }
}

} // verus!
