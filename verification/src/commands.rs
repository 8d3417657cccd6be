//! What the settings page asks of the screen context.

use vstd::prelude::*;

use crate::ocr;
use crate::ocr::{available_providers, recognize_screen_text, ReadingAction, ScreenReading};
use crate::ocr::download;
use crate::ocr::download::{all_download_status, cancel_all_downloads, DownloadTable};
use crate::ocr::engine;
use crate::ocr::engine::{DownloadStatus, OcrProvider};
use crate::ocr::rapidocr;
use crate::ocr::rapidocr::{DownloadJob, RapidOcrEngine};
use crate::strings;
use crate::strings::{same_text, trim};
use crate::types;
use crate::types::{Platform, UserPreferences};

verus! {

/// The settings as the page shows them.
#[derive(Debug, Clone)]
pub struct OcrSettings {
    pub screen_context_enabled: bool,
    pub active_provider_id: String,
    pub providers: Vec<OcrProvider>,
    pub models_base_dir: String,
    pub models_root_dir: String,
    pub download_mirror: String,
    pub requires_download: bool,
}

/// The settings, with their texts as sequences of characters.
pub struct OcrSettingsView {
    pub screen_context_enabled: bool,
    pub active_provider_id: Seq<char>,
    pub providers: Seq<engine::OcrProviderView>,
    pub models_base_dir: Seq<char>,
    pub models_root_dir: Seq<char>,
    pub download_mirror: Seq<char>,
    pub requires_download: bool,
}

impl View for OcrSettings {
    type V = OcrSettingsView;

    open spec fn view(&self) -> OcrSettingsView {
        OcrSettingsView {
            screen_context_enabled: self.screen_context_enabled,
            active_provider_id: self.active_provider_id@,
            providers: engine::provider_views(self.providers@),
            models_base_dir: self.models_base_dir@,
            models_root_dir: self.models_root_dir@,
            download_mirror: self.download_mirror@,
            requires_download: self.requires_download,
        }
    }
}

/// Whether the first provider with this id needs a download; none does not.
pub open spec fn needs_download(list: Seq<engine::OcrProviderView>, id: Seq<char>) -> bool
    decreases list.len(),
{
    if list.len() == 0 {
        false
    } else if list[0].id == id {
        list[0].requires_download
    } else {
        needs_download(list.drop_first(), id)
    }
}

/// Whether the chosen engine needs a download.
pub fn active_provider_requires_download(
    prefs: &UserPreferences,
    providers: &Vec<OcrProvider>,
) -> (r: bool)
    ensures
        r == needs_download(
            engine::provider_views(providers@),
            prefs@.active_ocr_provider,
        ),
{
    let ghost list = engine::provider_views(providers@);
    let n: usize = providers.len();
    let mut i: usize = 0;
    assert(list.skip(0) =~= list);
    while i < n
        invariant
            i <= n,
            n == providers@.len(),
            list == engine::provider_views(providers@),
            needs_download(list, prefs@.active_ocr_provider) == needs_download(
                list.skip(i as int),
                prefs@.active_ocr_provider,
            ),
        decreases n - i,
    {
        assert(list.skip(i as int)[0] == providers@[i as int]@);
        assert(list.skip(i as int).drop_first() =~= list.skip(i + 1));
        if same_text(providers[i].id.as_str(), prefs.active_ocr_provider.as_str()) {
            return providers[i].requires_download;
        }
        i += 1;
    }
    false
}

/// The settings for these preferences.
pub open spec fn settings_of(
    prefs: types::UserPreferencesView,
    platform: Platform,
    fallback_root: Seq<char>,
) -> OcrSettingsView {
    OcrSettingsView {
        screen_context_enabled: prefs.screen_context_enabled,
        active_provider_id: prefs.active_ocr_provider,
        providers: ocr::providers(platform),
        models_base_dir: prefs.ocr_models_base_dir,
        models_root_dir: rapidocr::models_path(
            rapidocr::models_dir(prefs.ocr_models_base_dir),
            fallback_root,
            platform,
        ),
        download_mirror: prefs.ocr_download_mirror,
        requires_download: needs_download(ocr::providers(platform), prefs.active_ocr_provider),
    }
}

/// The path of the directory that holds the models.
pub fn ocr_models_root(prefs: &UserPreferences, platform: Platform, fallback_root: &str) -> (path:
    String)
    ensures
        path@ == rapidocr::models_path(
            rapidocr::models_dir(prefs@.ocr_models_base_dir),
            fallback_root@,
            platform,
        ),
{
    RapidOcrEngine::models_dir_for(prefs).path(fallback_root, platform)
}

/// The settings as the page shows them. `fallback_root` is the directory that models are
/// kept in where the preferences name none.
pub fn get_ocr_settings(
    prefs: &UserPreferences,
    platform: Platform,
    fallback_root: &str,
) -> (settings: OcrSettings)
    ensures
        settings@ == settings_of(prefs@, platform, fallback_root@),
{
    let providers = available_providers(platform);
    let requires_download = active_provider_requires_download(prefs, &providers);
    OcrSettings {
        screen_context_enabled: prefs.screen_context_enabled,
        active_provider_id: prefs.active_ocr_provider.clone(),
        providers,
        models_base_dir: prefs.ocr_models_base_dir.clone(),
        models_root_dir: ocr_models_root(prefs, platform, fallback_root),
        download_mirror: prefs.ocr_download_mirror.clone(),
        requires_download,
    }
}

/// The preferences after the page has changed them. White space around the directory
/// and the mirror does not count.
pub open spec fn changed(
    screen_context_enabled: bool,
    active_provider_id: Seq<char>,
    models_base_dir: Seq<char>,
    download_mirror: Seq<char>,
) -> types::UserPreferencesView {
    types::UserPreferencesView {
        screen_context_enabled,
        active_ocr_provider: active_provider_id,
        ocr_models_base_dir: strings::trimmed(models_base_dir),
        ocr_download_mirror: strings::trimmed(download_mirror),
    }
}

/// Takes over what the page has set.
pub fn set_ocr_settings(
    prefs: &mut UserPreferences,
    screen_context_enabled: bool,
    active_provider_id: String,
    models_base_dir: String,
    download_mirror: String,
)
    ensures
        final(prefs)@ == changed(
            screen_context_enabled,
            active_provider_id@,
            models_base_dir@,
            download_mirror@,
        ),
{
    prefs.screen_context_enabled = screen_context_enabled;
    prefs.active_ocr_provider = active_provider_id;
    prefs.ocr_models_base_dir = trim(models_base_dir.as_str());
    prefs.ocr_download_mirror = trim(download_mirror.as_str());
}

/// The engines that the page offers.
pub fn get_ocr_providers(platform: Platform) -> (list: Vec<OcrProvider>)
    ensures
        engine::provider_views(list@) == ocr::providers(platform),
{
    available_providers(platform)
}

/// The mirror that a download uses: the one it is asked for with, or else the one of the
/// preferences.
pub open spec fn chosen_mirror(asked: Option<Seq<char>>, preferred: Seq<char>) -> Seq<char> {
    match asked {
        Some(mirror) => mirror,
        None => preferred,
    }
}

/// Enters the downloads of all model files as begun, and returns what is to be
/// downloaded from where.
pub fn start_ocr_model_download(
    prefs: &UserPreferences,
    mirror: Option<String>,
    table: &mut DownloadTable,
) -> (jobs: Vec<DownloadJob>)
    requires
        old(table).wf(),
    ensures
        final(table).wf(),
        final(table)@ == rapidocr::started(old(table)@, rapidocr::model_set().len()),
        jobs@.len() == rapidocr::model_set().len(),
        forall|i: int|
            0 <= i < jobs@.len() ==> (#[trigger] jobs@[i]).model_id@ == rapidocr::model_id_of(
                rapidocr::model_set()[i].0,
            ) && jobs@[i].url@ == rapidocr::download_url(
                chosen_mirror(strings::string_opt(mirror), prefs@.ocr_download_mirror),
                rapidocr::model_set()[i].0,
                rapidocr::model_set()[i].1,
            ),
{
    let engine = RapidOcrEngine::new(prefs);
    match mirror {
        Some(asked) => engine.start_download(asked.as_str(), table),
        None => engine.start_download(prefs.ocr_download_mirror.as_str(), table),
    }
}

/// Cancels all downloads in progress.
pub fn cancel_ocr_model_download(table: &mut DownloadTable)
    requires
        old(table).wf(),
    ensures
        final(table).wf(),
        final(table)@ == download::all_stopped(old(table)@),
{
    cancel_all_downloads(table);
}

/// All downloads known so far.
pub fn get_ocr_download_status(table: &DownloadTable) -> (list: Vec<DownloadStatus>)
    ensures
        engine::status_views(list@) == table@,
{
    all_download_status(table)
}

/// Takes note of the removal of the models' directory, as
/// `RapidOcrEngine::delete_models` does.
pub fn delete_ocr_models(
    prefs: &UserPreferences,
    removed: Result<(), String>,
    table: &mut DownloadTable,
) -> (r: Result<(), String>)
    requires
        old(table).wf(),
    ensures
        final(table).wf(),
        match removed {
            Ok(()) => r is Ok && final(table)@.len() == 0,
            Err(e) => r matches Err(x) && x@ == e@ && final(table)@ == old(table)@,
        },
{
    RapidOcrEngine::new(prefs).delete_models(removed, table)
}

/// Begins a trial recognition. Where the screen is not to be read it is over at once,
/// without a text.
pub fn test_ocr_recognition(prefs: &UserPreferences, platform: Platform) -> (r: (
    ScreenReading,
    ReadingAction,
))
    ensures
        ocr::is_active(r.0.engine, prefs@, platform),
        r.0.phase == ocr::first_phase(r.0.engine),
        r.1@ == ocr::first_action(r.0.engine),
        !prefs@.screen_context_enabled ==> r.1@ == ocr::ReadingActionView::Finish(Ok(None)),
{
    recognize_screen_text(prefs, platform)
}

proof fn lemma_rapidocr_needs_download(platform: Platform, id: Seq<char>)
    ensures
        needs_download(ocr::providers(platform), id) == (id == download::PROVIDER_ID@),
{
    reveal_with_fuel(needs_download, 4);
    reveal_strlit("disabled");
    reveal_strlit("rapidocr");
    reveal_strlit("winrt");
    assert(ocr::winrt::PROVIDER_ID@.len() == 5);
    assert(download::PROVIDER_ID@[0] == 'r');
    assert(ocr::disabled::PROVIDER_ID@[0] == 'd');
}

/// The page shows what it has set, with the white space around the directory and the
/// mirror gone, beside the engines on offer. It shows the directory that was set, joined
/// with the one of the engine, as the models' directory, and asks for a download where
/// RapidOCR was chosen. Setting what is shown again changes nothing.
pub proof fn law_settings_read_back(
    platform: Platform,
    fallback_root: Seq<char>,
    screen_context_enabled: bool,
    active_provider_id: Seq<char>,
    models_base_dir: Seq<char>,
    download_mirror: Seq<char>,
)
    ensures
        ({
            let prefs = changed(
                screen_context_enabled,
                active_provider_id,
                models_base_dir,
                download_mirror,
            );
            let shown = settings_of(prefs, platform, fallback_root);
            &&& shown.screen_context_enabled == screen_context_enabled
            &&& shown.active_provider_id == active_provider_id
            &&& shown.providers == ocr::providers(platform)
            &&& shown.models_base_dir == strings::trimmed(models_base_dir)
            &&& shown.download_mirror == strings::trimmed(download_mirror)
            &&& shown.requires_download == (active_provider_id == download::PROVIDER_ID@)
            &&& shown.models_root_dir == rapidocr::path_in(
                if strings::trimmed(models_base_dir).len() > 0 {
                    strings::trimmed(models_base_dir)
                } else {
                    fallback_root
                },
                rapidocr::MODELS_SUBDIR@,
                rapidocr::separator_on(platform),
            )
            &&& changed(
                shown.screen_context_enabled,
                shown.active_provider_id,
                shown.models_base_dir,
                shown.download_mirror,
            ) == prefs
        }),
{
    strings::lemma_trimmed_ends(models_base_dir);
    strings::lemma_trimmed_fixed(strings::trimmed(models_base_dir));
    strings::lemma_trimmed_ends(download_mirror);
    strings::lemma_trimmed_fixed(strings::trimmed(download_mirror));
    lemma_rapidocr_needs_download(platform, active_provider_id);
}

/// The directory that the page shows is the one that the engine in use reads.
pub proof fn law_page_shows_the_engines_directory(
    e: ocr::ActiveEngine,
    prefs: types::UserPreferencesView,
    platform: Platform,
    fallback_root: Seq<char>,
)
    requires
        ocr::is_active(e, prefs, platform),
    ensures
        e matches ocr::ActiveEngine::RapidOcr(r) ==> settings_of(
            prefs,
            platform,
            fallback_root,
        ).models_root_dir == rapidocr::models_path(r.models_dir@, fallback_root, platform),
{
}

/// The page asks for a download exactly where the engine in use needs one.
pub proof fn law_page_asks_for_needed_download(
    e: ocr::ActiveEngine,
    prefs: types::UserPreferencesView,
    platform: Platform,
)
    requires
        ocr::is_active(e, prefs, platform),
        prefs.screen_context_enabled,
    ensures
        engine::OcrEngine::wants_download(&e) == needs_download(
            ocr::providers(platform),
            prefs.active_ocr_provider,
        ),
{
    lemma_rapidocr_needs_download(platform, prefs.active_ocr_provider);
    reveal_strlit("rapidocr");
    reveal_strlit("winrt");
    assert(ocr::winrt::PROVIDER_ID@.len() == 5);
    assert(download::PROVIDER_ID@.len() == 8);
}

/// The first provider with the id decides whether a download is needed, whatever stands
/// behind it; without one none is.
pub proof fn law_first_provider_with_the_id_decides(
    list: Seq<engine::OcrProviderView>,
    id: Seq<char>,
    i: int,
)
    ensures
        0 <= i < list.len() && list[i].id == id && (forall|k: int|
            0 <= k < i ==> (#[trigger] list[k]).id != id) ==> needs_download(list, id)
            == list[i].requires_download,
        (forall|k: int| 0 <= k < list.len() ==> (#[trigger] list[k]).id != id) ==> !needs_download(
            list,
            id,
        ),
    decreases list.len(),
{
    if list.len() > 0 {
        let rest = list.drop_first();
        law_first_provider_with_the_id_decides(rest, id, i - 1);
        assert forall|k: int| 0 <= k < rest.len() implies rest[k] == list[k + 1] by {}
        if 0 < i < list.len() && (forall|k: int| 0 <= k < i ==> (#[trigger] list[k]).id != id) {
            assert(list[0].id != id);
            assert(rest[i - 1] == list[i]);
            assert forall|k: int| 0 <= k < i - 1 implies (#[trigger] rest[k]).id != id by {
                assert(list[k + 1].id != id);
            }
        }
        if forall|k: int| 0 <= k < list.len() ==> (#[trigger] list[k]).id != id {
            assert(list[0].id != id);
            assert forall|k: int| 0 <= k < rest.len() implies (#[trigger] rest[k]).id != id by {
                assert(list[k + 1].id != id);
            }
        }
    }
}

/// The page shows each preference as it is, the models' directory below the base of the
/// preferences or the one to fall back on, and that a download is needed exactly where
/// RapidOCR is chosen.
pub proof fn law_page_shows_the_preferences(
    prefs: types::UserPreferencesView,
    platform: Platform,
    fallback_root: Seq<char>,
)
    ensures
        ({
            let shown = settings_of(prefs, platform, fallback_root);
            &&& shown.screen_context_enabled == prefs.screen_context_enabled
            &&& shown.active_provider_id == prefs.active_ocr_provider
            &&& shown.models_base_dir == prefs.ocr_models_base_dir
            &&& shown.download_mirror == prefs.ocr_download_mirror
            &&& shown.providers == ocr::providers(platform)
            &&& shown.requires_download <==> prefs.active_ocr_provider == "rapidocr"@
            &&& shown.models_root_dir == rapidocr::path_in(
                if prefs.ocr_models_base_dir.len() > 0 {
                    prefs.ocr_models_base_dir
                } else {
                    fallback_root
                },
                "rapidocr"@,
                if platform is Windows {
                    '\\'
                } else {
                    '/'
                },
            )
        }),
{
    lemma_rapidocr_needs_download(platform, prefs.active_ocr_provider);
}

/// What the page sets is taken over: the switch and the engine as they are, the directory
/// and the mirror without the white space round them.
pub proof fn law_settings_are_taken_over(
    screen_context_enabled: bool,
    active_provider_id: Seq<char>,
    front: Seq<char>,
    dir: Seq<char>,
    mirror: Seq<char>,
    back: Seq<char>,
)
    requires
        forall|i: int| 0 <= i < front.len() ==> strings::is_white_space(#[trigger] front[i]),
        forall|i: int| 0 <= i < back.len() ==> strings::is_white_space(#[trigger] back[i]),
        dir.len() > 0 ==> !strings::is_white_space(dir[0]) && !strings::is_white_space(dir.last()),
        mirror.len() > 0 ==> !strings::is_white_space(mirror[0]) && !strings::is_white_space(
            mirror.last(),
        ),
    ensures
        changed(
            screen_context_enabled,
            active_provider_id,
            front + dir + back,
            front + mirror + back,
        ) == (types::UserPreferencesView {
            screen_context_enabled,
            active_ocr_provider: active_provider_id,
            ocr_models_base_dir: dir,
            ocr_download_mirror: mirror,
        }),
{
    strings::law_trimming_takes_the_ends_off(front, dir, back);
    strings::law_trimming_takes_the_ends_off(front, mirror, back);
}

/// A mirror that is asked for is used, also an empty one; without one, that of the
/// preferences is.
pub proof fn law_asked_mirror_comes_first(asked: Seq<char>, preferred: Seq<char>)
    ensures
        chosen_mirror(Some(asked), preferred) == asked,
        chosen_mirror(None, preferred) == preferred,
{
}

} // verus!
