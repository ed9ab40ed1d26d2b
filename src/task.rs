//! One task per pair: where its output goes and how the tools are invoked.
use vstd::prelude::*;
use crate::error::{is_lang_error, ProgramError};
use crate::language::{language_of, resolve_language, LanguageCode};
use crate::pairing::{names, PairSet};
use crate::text::same_text;

verus! {

/// The directory that receives the merged files: `<dir>/output`.
pub open spec fn output_dir_spec(dir: Seq<char>) -> Seq<char> {
    dir + seq!['/', 'o', 'u', 't', 'p', 'u', 't']
}

/// Where the merged file of `video` goes: `<dir>/output/<video>`.
pub open spec fn output_path_spec(dir: Seq<char>, video: Seq<char>) -> Seq<char> {
    output_dir_spec(dir) + seq!['/'] + video
}

pub open spec fn opt_output() -> Seq<char> {
    seq!['-', 'o']
}

pub open spec fn opt_input() -> Seq<char> {
    seq!['-', 'i']
}

pub open spec fn opt_language() -> Seq<char> {
    seq!['-', '-', 'l', 'a', 'n', 'g', 'u', 'a', 'g', 'e']
}

pub open spec fn opt_track_name() -> Seq<char> {
    seq!['-', '-', 't', 'r', 'a', 'c', 'k', '-', 'n', 'a', 'm', 'e']
}

/// The multiplexing tool.
pub open spec fn mux_program() -> Seq<char> {
    seq!['m', 'k', 'v', 'm', 'e', 'r', 'g', 'e']
}

/// The subtitle synchronisation tool.
pub open spec fn sync_program() -> Seq<char> {
    seq!['f', 'f', 's']
}

/// A track option value: `0:<v>`, for the first track of the subtitle file.
pub open spec fn track_value(v: Seq<char>) -> Seq<char> {
    seq!['0', ':'] + v
}

/// The arguments of the multiplexing tool:
/// `-o <output> <video> --language 0:<code> --track-name 0:<name> <sub>`.
pub open spec fn mux_args_spec(
    output_path: Seq<char>,
    video: Seq<char>,
    code: Seq<char>,
    track_name: Seq<char>,
    sub: Seq<char>,
) -> Seq<Seq<char>> {
    seq![
        opt_output(),
        output_path,
        video,
        opt_language(),
        track_value(code),
        opt_track_name(),
        track_value(track_name),
        sub,
    ]
}

/// The arguments of the synchronisation tool, which rewrites the subtitle
/// file in place: `<video> -i <sub> -o <sub>`.
pub open spec fn sync_args_spec(video: Seq<char>, sub: Seq<char>) -> Seq<Seq<char>> {
    seq![video, opt_input(), sub, opt_output(), sub]
}

fn text_output() -> (r: String)
    ensures
        r@ == opt_output(),
{
    proof {
        reveal_strlit("-o");
    }
    let r = String::from_str("-o");
    assert(r@ =~= opt_output());
    r
}

fn text_input() -> (r: String)
    ensures
        r@ == opt_input(),
{
    proof {
        reveal_strlit("-i");
    }
    let r = String::from_str("-i");
    assert(r@ =~= opt_input());
    r
}

fn text_language() -> (r: String)
    ensures
        r@ == opt_language(),
{
    proof {
        reveal_strlit("--language");
    }
    let r = String::from_str("--language");
    assert(r@ =~= opt_language());
    r
}

fn text_track_name() -> (r: String)
    ensures
        r@ == opt_track_name(),
{
    proof {
        reveal_strlit("--track-name");
    }
    let r = String::from_str("--track-name");
    assert(r@ =~= opt_track_name());
    r
}

fn text_track_value(v: &str) -> (r: String)
    ensures
        r@ == track_value(v@),
{
    proof {
        reveal_strlit("0:");
    }
    let p = "0:";
    assert(p@ =~= seq!['0', ':']);
    String::from_str(p).concat(v)
}

/// The name of the multiplexing tool.
pub fn mux_program_name() -> (r: String)
    ensures
        r@ == mux_program(),
{
    proof {
        reveal_strlit("mkvmerge");
    }
    let r = String::from_str("mkvmerge");
    assert(r@ =~= mux_program());
    r
}

/// The name of the synchronisation tool.
pub fn sync_program_name() -> (r: String)
    ensures
        r@ == sync_program(),
{
    proof {
        reveal_strlit("ffs");
    }
    let r = String::from_str("ffs");
    assert(r@ =~= sync_program());
    r
}

/// The directory that receives the merged files of `dir`.
pub fn output_dir(dir: &str) -> (r: String)
    ensures
        r@ == output_dir_spec(dir@),
{
    proof {
        reveal_strlit("/output");
    }
    let suffix = "/output";
    assert(suffix@ =~= seq!['/', 'o', 'u', 't', 'p', 'u', 't']);
    String::from_str(dir).concat(suffix)
}

/// A program and the arguments to start it with.
pub struct Invocation {
    pub program: String,
    pub args: Vec<String>,
}

/// The work for one pair.
pub struct MuxTask {
    pub sub: String,
    pub video: String,
    pub output_path: String,
    pub language: LanguageCode,
}

impl MuxTask {
    /// The arguments that start the multiplexing tool for its pair.
    pub open spec fn mux_args_view(&self) -> Seq<Seq<char>> {
        mux_args_spec(
            self.output_path@,
            self.video@,
            self.language.code_spec(),
            self.language.name_spec(),
            self.sub@,
        )
    }

    /// How the multiplexing tool is started for its pair.
    pub fn mux_invocation(&self) -> (r: Invocation)
        ensures
            r.program@ == mux_program(),
            names(r.args@) == self.mux_args_view(),
    {
        let code = self.language.code();
        let name = self.language.name();
        let mut args: Vec<String> = Vec::new();
        args.push(text_output());
        args.push(self.output_path.clone());
        args.push(self.video.clone());
        args.push(text_language());
        args.push(text_track_value(code.as_str()));
        args.push(text_track_name());
        args.push(text_track_value(name.as_str()));
        args.push(self.sub.clone());
        assert(names(args@) =~= self.mux_args_view());
        Invocation { program: mux_program_name(), args }
    }

    /// How the synchronisation tool is started for its pair.
    pub fn sync_invocation(&self) -> (r: Invocation)
        ensures
            r.program@ == sync_program(),
            names(r.args@) == sync_args_spec(self.video@, self.sub@),
    {
        let mut args: Vec<String> = Vec::new();
        args.push(self.video.clone());
        args.push(text_input());
        args.push(self.sub.clone());
        args.push(text_output());
        args.push(self.sub.clone());
        assert(names(args@) =~= sync_args_spec(self.video@, self.sub@));
        Invocation { program: sync_program_name(), args }
    }
}

/// Task `t` is the one for the subtitle `sub` and the video `video` of the
/// directory `dir`, in language `lang`.
pub open spec fn is_task_for(
    t: MuxTask,
    dir: Seq<char>,
    sub: Seq<char>,
    video: Seq<char>,
    lang: LanguageCode,
) -> bool {
    &&& t.sub@ == sub
    &&& t.video@ == video
    &&& t.output_path@ == output_path_spec(dir, video)
    &&& t.language == lang
}

/// Builds one task per pair, in pairing order. An unknown language code fails
/// the whole batch with a `LangError` that carries it, and no task is built.
pub fn build_tasks(pairs: &PairSet, dir: &str, lang: &str) -> (r: Result<Vec<MuxTask>, ProgramError>)
    ensures
        r is Err <==> language_of(lang@) is None,
        r is Err ==> is_lang_error(r->Err_0, lang@),
        r is Ok ==> r->Ok_0@.len() == pairs.videos_view().len(),
        r is Ok ==> forall|i: int|
            0 <= i < r->Ok_0@.len() ==> is_task_for(
                #[trigger] r->Ok_0@[i],
                dir@,
                pairs.subs_view()[i],
                pairs.videos_view()[i],
                language_of(lang@)->Some_0,
            ),
{
    let language = match resolve_language(lang) {
        Ok(l) => l,
        Err(e) => {
            return Err(e);
        },
    };
    let out = output_dir(dir);
    let n = pairs.len();
    let mut tasks: Vec<MuxTask> = Vec::new();
    let mut i: usize = 0;
    while i < n
        invariant
            n == pairs.subs_view().len(),
            n == pairs.videos_view().len(),
            out@ == output_dir_spec(dir@),
            language == language_of(lang@)->Some_0,
            i <= n,
            tasks@.len() == i,
            forall|k: int|
                0 <= k < i ==> is_task_for(
                    #[trigger] tasks@[k],
                    dir@,
                    pairs.subs_view()[k],
                    pairs.videos_view()[k],
                    language,
                ),
        decreases n - i,
    {
        proof {
            reveal_strlit("/");
        }
        let slash = "/";
        assert(slash@ =~= seq!['/']);
        let video = pairs.video(i).clone();
        let path = out.clone().concat(slash).concat(video.as_str());
        let t = MuxTask { sub: pairs.sub(i).clone(), video, output_path: path, language };
        tasks.push(t);
        i = i + 1;
    }
    Ok(tasks)
}

/// `a` is a track option value, `0:` and a rest.
pub open spec fn is_track_value(a: Seq<char>) -> bool {
    a.len() >= 2 && a[0] == '0' && a[1] == ':'
}

/// What a multiplexing argument list names: output path, video, language
/// code, track name and subtitle; `None` for a list of another shape.
pub open spec fn parse_mux_args_spec(args: Seq<Seq<char>>) -> Option<
    (Seq<char>, Seq<char>, Seq<char>, Seq<char>, Seq<char>),
> {
    if args.len() == 8 && args[0] == opt_output() && args[3] == opt_language() && is_track_value(
        args[4],
    ) && args[5] == opt_track_name() && is_track_value(args[6]) {
        Some((args[1], args[2], args[4].skip(2), args[6].skip(2), args[7]))
    } else {
        None
    }
}

/// The values named by a multiplexing argument list.
pub struct MuxFields {
    pub output_path: String,
    pub video: String,
    pub code: String,
    pub track_name: String,
    pub sub: String,
}

/// The rest of a track option value after its `0:`, if it is one.
fn track_value_rest(a: &str) -> (r: Option<String>)
    ensures
        r is Some <==> is_track_value(a@),
        r is Some ==> r->Some_0@ == a@.skip(2),
{
    let n = a.unicode_len();
    if n < 2 || a.get_char(0) != '0' || a.get_char(1) != ':' {
        return None;
    }
    let rest = a.substring_char(2, n);
    assert(rest@ =~= a@.skip(2));
    Some(String::from_str(rest))
}

/// Reads a multiplexing argument list back into the values it names.
pub fn parse_mux_args(args: &Vec<String>) -> (r: Option<MuxFields>)
    ensures
        r is Some <==> parse_mux_args_spec(names(args@)) is Some,
        r is Some ==> {
            let (o, v, c, t, s) = parse_mux_args_spec(names(args@))->Some_0;
            let f = r->Some_0;
            f.output_path@ == o && f.video@ == v && f.code@ == c && f.track_name@ == t && f.sub@
                == s
        },
{
    let ghost a = names(args@);
    if args.len() != 8 {
        return None;
    }
    assert(a[0] == args@[0]@ && a[3] == args@[3]@ && a[4] == args@[4]@);
    assert(a[5] == args@[5]@ && a[6] == args@[6]@);
    let o = text_output();
    let l = text_language();
    let t = text_track_name();
    if !same_text(args[0].as_str(), o.as_str()) || !same_text(args[3].as_str(), l.as_str())
        || !same_text(args[5].as_str(), t.as_str()) {
        return None;
    }
    let code = match track_value_rest(args[4].as_str()) {
        Some(c) => c,
        None => {
            return None;
        },
    };
    let track_name = match track_value_rest(args[6].as_str()) {
        Some(c) => c,
        None => {
            return None;
        },
    };
    Some(
        MuxFields {
            output_path: args[1].clone(),
            video: args[2].clone(),
            code,
            track_name,
            sub: args[7].clone(),
        },
    )
}

/// A task's multiplexing arguments read back give the output path, video,
/// language code, track name and subtitle the task was built with.
pub proof fn lemma_mux_args_round_trip(t: MuxTask)
    ensures
        parse_mux_args_spec(t.mux_args_view()) == Some(
            (
                t.output_path@,
                t.video@,
                t.language.code_spec(),
                t.language.name_spec(),
                t.sub@,
            ),
        ),
{
    let code = t.language.code_spec();
    let name = t.language.name_spec();
    assert(track_value(code).skip(2) =~= code);
    assert(track_value(name).skip(2) =~= name);
    assert(track_value(code)[0] == '0' && track_value(code)[1] == ':');
    assert(track_value(name)[0] == '0' && track_value(name)[1] == ':');
}

} // verus!
