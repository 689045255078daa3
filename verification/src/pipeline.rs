use crate::canvas::{is_not_empty, Canvas};
use crate::font::{load_font, LoadError};
use crate::render::{byte_len, generate_image_for_word, renders, MAX_FONT_SIZE};
use vstd::prelude::*;
use vstd::string::StringExecFns;

verus! {

/// One step on the files of a font's output directory.
#[derive(Debug, PartialEq, Eq)]
pub enum FileAction {
    /// Save the rendered canvas under the transient name.
    WriteRaw { name: String },
    /// Have the image tool trim `raw` to its content, reset the canvas
    /// offset, add a white border of `border` pixels and write `output`.
    PostProcess { raw: String, output: String, border: u32 },
    /// Delete the transient file.
    RemoveRaw { name: String },
}

/// A `FileAction` with its names as sequences.
pub ghost enum ActionView {
    WriteRaw { name: Seq<char> },
    PostProcess { raw: Seq<char>, output: Seq<char>, border: u32 },
    RemoveRaw { name: Seq<char> },
}

impl View for FileAction {
    type V = ActionView;

    open spec fn view(&self) -> ActionView {
        match self {
            FileAction::WriteRaw { name } => ActionView::WriteRaw { name: name@ },
            FileAction::PostProcess { raw, output, border } => ActionView::PostProcess {
                raw: raw@,
                output: output@,
                border: *border,
            },
            FileAction::RemoveRaw { name } => ActionView::RemoveRaw { name: name@ },
        }
    }
}

/// What the rendering of a word came to.
#[derive(Debug, Clone, Copy, PartialEq, Eq, Structural)]
pub enum RenderState {
    /// No canvas was produced.
    Missing,
    /// A canvas was produced, and every pixel of it is white.
    Blank,
    /// A canvas with something to see on it.
    Visible,
}

/// The state that a render result stands for.
pub open spec fn render_state(image: Option<Canvas>) -> RenderState {
    match image {
        None => RenderState::Missing,
        Some(canvas) => if canvas.is_blank() {
            RenderState::Blank
        } else {
            RenderState::Visible
        },
    }
}

/// The files that one word of one font is rendered through.
#[derive(Debug, PartialEq, Eq)]
pub struct WordJob {
    pub word: String,
    /// Name of the final image inside the font's output directory.
    pub output_name: String,
    /// Name of the transient raw image beside it.
    pub temp_name: String,
}

/// A loaded font with the work that is to be done for it.
pub struct FontJob {
    /// Name of the font's directory under the output root.
    pub directory: String,
    pub font: rusttype::Font<'static>,
    /// One job for each word, in the order of the word list.
    pub jobs: Vec<WordJob>,
}

/// Name of a word's final image.
pub open spec fn output_name_of(word: Seq<char>) -> Seq<char> {
    word + ".png"@
}

/// Name of a word's transient raw image.
pub open spec fn temp_name_of(word: Seq<char>) -> Seq<char> {
    word + "_temp.png"@
}

/// The job of a word carries the word and its two file names.
pub open spec fn is_job_of(job: WordJob, word: Seq<char>) -> bool {
    &&& job.word@ == word
    &&& job.output_name@ == output_name_of(word)
    &&& job.temp_name@ == temp_name_of(word)
}

/// The steps for one word: none where there is no canvas; otherwise the raw
/// image is saved and deleted again, and in between post-processed into the
/// final image if it shows anything.
pub open spec fn word_steps(temp: Seq<char>, output: Seq<char>, state: RenderState, border: u32) -> Seq<
    ActionView,
> {
    match state {
        RenderState::Missing => Seq::empty(),
        RenderState::Blank => seq![
            ActionView::WriteRaw { name: temp },
            ActionView::RemoveRaw { name: temp },
        ],
        RenderState::Visible => seq![
            ActionView::WriteRaw { name: temp },
            ActionView::PostProcess { raw: temp, output: output, border: border },
            ActionView::RemoveRaw { name: temp },
        ],
    }
}

/// Tells what a render result came to.
pub fn classify_render(image: &Option<Canvas>) -> (state: RenderState)
    ensures
        state == render_state(*image),
{
    match image {
        None => RenderState::Missing,
        Some(canvas) => if is_not_empty(canvas) {
            RenderState::Visible
        } else {
            RenderState::Blank
        },
    }
}

/// The names and the job of a single word.
pub fn word_job(word: &str) -> (job: WordJob)
    ensures
        is_job_of(job, word@),
{
    WordJob {
        word: word.to_owned(),
        output_name: word.to_owned().concat(".png"),
        temp_name: word.to_owned().concat("_temp.png"),
    }
}

/// Prepares the work for one font: parses the font data and lists a job for
/// every word, in list order. A font that cannot be parsed gives the load
/// error and no work.
pub fn process_font(font_name: &str, font_data: Vec<u8>, words: &Vec<String>) -> (plan: Result<
    FontJob,
    LoadError,
>)
    ensures
        plan is Ok <==> crate::font::recognised_font(font_data@),
        plan is Err ==> plan->Err_0 == LoadError::InvalidData,
        plan is Ok ==> {
            &&& plan->Ok_0.directory@ == font_name@
            &&& plan->Ok_0.jobs@.len() == words@.len()
            &&& forall|i: int|
                0 <= i < words@.len() ==> is_job_of(#[trigger] plan->Ok_0.jobs@[i], words@[i]@)
        },
{
    match load_font(font_data) {
        Ok(font) => {
            let mut jobs: Vec<WordJob> = Vec::new();
            let mut i: usize = 0;
            while i < words.len()
                invariant
                    i <= words@.len(),
                    jobs@.len() == i,
                    forall|k: int| 0 <= k < i ==> is_job_of(#[trigger] jobs@[k], words@[k]@),
                decreases words@.len() - i,
            {
                jobs.push(word_job(words[i].as_str()));
                i = i + 1;
            }
            Ok(FontJob { directory: font_name.to_owned(), font, jobs })
        },
        Err(error) => Err(error),
    }
}

/// Lists the steps that follow the rendering of a word.
pub fn word_actions(job: &WordJob, state: RenderState, border_size: u32) -> (actions: Vec<
    FileAction,
>)
    ensures
        actions@.map_values(|a: FileAction| a@) == word_steps(
            job.temp_name@,
            job.output_name@,
            state,
            border_size,
        ),
        actions@.len() == word_steps(job.temp_name@, job.output_name@, state, border_size).len(),
{
    let mut actions: Vec<FileAction> = Vec::new();
    if state != RenderState::Missing {
        actions.push(FileAction::WriteRaw { name: job.temp_name.clone() });
        if state == RenderState::Visible {
            actions.push(
                FileAction::PostProcess {
                    raw: job.temp_name.clone(),
                    output: job.output_name.clone(),
                    border: border_size,
                },
            );
        }
        actions.push(FileAction::RemoveRaw { name: job.temp_name.clone() });
    }
    assert(actions@.map_values(|a: FileAction| a@) =~= word_steps(
        job.temp_name@,
        job.output_name@,
        state,
        border_size,
    ));
    actions
}

/// Renders the word of a job with `draw` and lists the steps that follow:
/// none where nothing visible came of it, else the three that turn the
/// canvas into the final image.
pub fn process_word<F: FnOnce(Canvas, u32, u32) -> Canvas>(
    draw: F,
    job: &WordJob,
    font_size: u32,
    border_size: u32,
) -> (done: (Option<Canvas>, Vec<FileAction>))
    requires
        font_size <= MAX_FONT_SIZE,
        forall|blank: Canvas, x: u32, y: u32| blank.wf() ==> call_requires(draw, (blank, x, y)),
    ensures
        renders(draw, byte_len(job.word@), font_size, done.0),
        done.1@.map_values(|a: FileAction| a@) == word_steps(
            job.temp_name@,
            job.output_name@,
            if done.0 is Some {
                RenderState::Visible
            } else {
                RenderState::Missing
            },
            border_size,
        ),
{
    let image = generate_image_for_word(draw, job.word.as_str(), font_size);
    let state = classify_render(&image);
    let actions = word_actions(job, state, border_size);
    (image, actions)
}

/// The files of a directory after one step, where every step succeeds.
pub open spec fn files_after(files: Set<Seq<char>>, action: ActionView) -> Set<Seq<char>> {
    match action {
        ActionView::WriteRaw { name } => files.insert(name),
        ActionView::PostProcess { raw, output, border } => files.insert(output),
        ActionView::RemoveRaw { name } => files.remove(name),
    }
}

/// The files of a directory after a run of steps.
pub open spec fn files_after_all(files: Set<Seq<char>>, actions: Seq<ActionView>) -> Set<Seq<char>>
    decreases actions.len(),
{
    if actions.len() == 0 {
        files
    } else {
        files_after(files_after_all(files, actions.drop_last()), actions.last())
    }
}

/// The files of a font's directory after one word has gone through.
pub open spec fn files_after_word(
    files: Set<Seq<char>>,
    word: Seq<char>,
    state: RenderState,
    border: u32,
) -> Set<Seq<char>> {
    files_after_all(files, word_steps(temp_name_of(word), output_name_of(word), state, border))
}

/// The two file names of a word are never the same.
pub proof fn lemma_names_differ(word: Seq<char>)
    ensures
        output_name_of(word) != temp_name_of(word),
{
    reveal_strlit(".png");
    reveal_strlit("_temp.png");
    assert(output_name_of(word).len() == word.len() + 4);
    assert(temp_name_of(word).len() == word.len() + 9);
}

proof fn lemma_steps_files(
    files: Set<Seq<char>>,
    temp: Seq<char>,
    output: Seq<char>,
    state: RenderState,
    border: u32,
)
    ensures
        files_after_all(files, word_steps(temp, output, state, border)) == match state {
            RenderState::Missing => files,
            RenderState::Blank => files.insert(temp).remove(temp),
            RenderState::Visible => files.insert(temp).insert(output).remove(temp),
        },
{
    let steps = word_steps(temp, output, state, border);
    match state {
        RenderState::Missing => {},
        RenderState::Blank => {
            let one = steps.drop_last();
            assert(one.drop_last() =~= Seq::<ActionView>::empty());
            assert(files_after_all(files, one.drop_last()) == files);
            assert(files_after_all(files, one) == files.insert(temp));
        },
        RenderState::Visible => {
            let two = steps.drop_last();
            let one = two.drop_last();
            assert(one.drop_last() =~= Seq::<ActionView>::empty());
            assert(files_after_all(files, one.drop_last()) == files);
            assert(files_after_all(files, one) == files.insert(temp));
            assert(files_after_all(files, two) == files.insert(temp).insert(output));
        },
    }
}

/// A word without a visible render creates no final image and leaves no
/// transient file: apart from the transient name, the directory holds what
/// it held before.
pub proof fn lemma_blank_render_writes_nothing(
    files: Set<Seq<char>>,
    word: Seq<char>,
    state: RenderState,
    border: u32,
)
    requires
        state != RenderState::Visible,
    ensures
        files_after_word(files, word, state, border).contains(output_name_of(word))
            == files.contains(output_name_of(word)),
        files_after_word(files, word, state, border).remove(temp_name_of(word)) == files.remove(
            temp_name_of(word),
        ),
        state == RenderState::Missing ==> files_after_word(files, word, state, border) == files,
        state == RenderState::Blank ==> !files_after_word(files, word, state, border).contains(
            temp_name_of(word),
        ),
{
    let temp = temp_name_of(word);
    lemma_names_differ(word);
    lemma_steps_files(files, temp, output_name_of(word), state, border);
    assert(files.insert(temp).remove(temp) =~= files.remove(temp));
    assert(files.remove(temp).remove(temp) =~= files.remove(temp));
}

/// After a word with a visible render, its final image exists and its
/// transient file does not.
pub proof fn lemma_render_leaves_final_only(files: Set<Seq<char>>, word: Seq<char>, border: u32)
    ensures
        files_after_word(files, word, RenderState::Visible, border).contains(output_name_of(word)),
        !files_after_word(files, word, RenderState::Visible, border).contains(temp_name_of(word)),
{
    lemma_names_differ(word);
    lemma_steps_files(
        files,
        temp_name_of(word),
        output_name_of(word),
        RenderState::Visible,
        border,
    );
}

/// Running a word a second time leaves the same files as running it once.
pub proof fn lemma_rerun_same_files(
    files: Set<Seq<char>>,
    word: Seq<char>,
    state: RenderState,
    border: u32,
)
    ensures
        files_after_word(files_after_word(files, word, state, border), word, state, border)
            == files_after_word(files, word, state, border),
{
    let temp = temp_name_of(word);
    let output = output_name_of(word);
    let once = files_after_word(files, word, state, border);
    lemma_names_differ(word);
    lemma_steps_files(files, temp, output, state, border);
    lemma_steps_files(once, temp, output, state, border);
    match state {
        RenderState::Missing => {},
        RenderState::Blank => {
            assert(once.insert(temp).remove(temp) =~= once);
        },
        RenderState::Visible => {
            assert(once.insert(temp).insert(output).remove(temp) =~= once);
        },
    }
}

/// The files of a font's directory after a list of words has gone through,
/// one after the other.
pub open spec fn files_after_words(
    files: Set<Seq<char>>,
    words: Seq<Seq<char>>,
    states: Seq<RenderState>,
    border: u32,
) -> Set<Seq<char>>
    decreases words.len(),
{
    if words.len() == 0 || states.len() == 0 {
        files
    } else {
        files_after_word(
            files_after_words(files, words.drop_last(), states.drop_last(), border),
            words.last(),
            states.last(),
            border,
        )
    }
}

/// At the end of a font's run the final image of a word with a visible
/// render exists, unless a later word used that very name for its
/// transient file.
pub proof fn lemma_final_image_survives_run(
    files: Set<Seq<char>>,
    words: Seq<Seq<char>>,
    states: Seq<RenderState>,
    border: u32,
    i: int,
)
    requires
        words.len() == states.len(),
        0 <= i < words.len(),
        states[i] == RenderState::Visible,
        forall|j: int|
            i < j < words.len() && states[j] != RenderState::Missing ==> temp_name_of(
                #[trigger] words[j],
            ) != output_name_of(words[i]),
    ensures
        files_after_words(files, words, states, border).contains(output_name_of(words[i])),
    decreases words.len(),
{
    let k = words.len() - 1;
    let earlier = files_after_words(files, words.drop_last(), states.drop_last(), border);
    lemma_steps_files(
        earlier,
        temp_name_of(words[k]),
        output_name_of(words[k]),
        states[k],
        border,
    );
    if k == i {
        lemma_names_differ(words[i]);
    } else {
        lemma_final_image_survives_run(files, words.drop_last(), states.drop_last(), border, i);
    }
}

/// At the end of a font's run the transient file of a word that was
/// rendered is gone, unless a later word used that very name for its final
/// image.
pub proof fn lemma_transient_gone_after_run(
    files: Set<Seq<char>>,
    words: Seq<Seq<char>>,
    states: Seq<RenderState>,
    border: u32,
    i: int,
)
    requires
        words.len() == states.len(),
        0 <= i < words.len(),
        states[i] != RenderState::Missing,
        forall|j: int|
            i < j < words.len() && states[j] == RenderState::Visible ==> output_name_of(
                #[trigger] words[j],
            ) != temp_name_of(words[i]),
    ensures
        !files_after_words(files, words, states, border).contains(temp_name_of(words[i])),
    decreases words.len(),
{
    let k = words.len() - 1;
    let earlier = files_after_words(files, words.drop_last(), states.drop_last(), border);
    lemma_steps_files(
        earlier,
        temp_name_of(words[k]),
        output_name_of(words[k]),
        states[k],
        border,
    );
    if k == i {
        lemma_names_differ(words[i]);
    } else {
        lemma_transient_gone_after_run(files, words.drop_last(), states.drop_last(), border, i);
    }
}

} // verus!
