//! What holds of the application whatever happens.
use vstd::prelude::*;
use crate::json::JsonV;
use crate::providers::models::ProviderKind;
use crate::tui::downloads::season_place;
use crate::tui::state::{AppV, Pictures, TvCatalogV};

verus! {

/// After another provider was chosen, answers of the former one change nothing.
pub proof fn law_former_provider_is_not_heard(
    m: AppV,
    provider: ProviderKind,
    query: Seq<char>,
    id: Seq<char>,
    payload: JsonV,
    pictures: Pictures,
    error: Seq<char>,
)
    requires
        !m.ui.is_tv_mode,
        provider != m.ui.active_provider,
    ensures
        ({
            let n = m.provider_switched(provider);
            &&& n.results_came(m.context(), query, payload) == n
            &&& n.search_failed(m.context(), error) == n
            &&& n.details_came(m.context(), id, payload, pictures) == n
            &&& n.details_failed(m.context(), error) == n
        }),
{
    let n = m.provider_switched(provider);
    assert(n.ui.active_provider == provider);
    assert(n.context().provider == provider);
    assert(n.context() != m.context());
}

/// Confirming, taking up, completing, clearing and giving up downloads never leave more episodes
/// waiting than were queued; so the number of an episode within its season can be shown. The list of
/// the season's episodes has a length that a machine can hold.
pub proof fn law_queue_fits(m: AppV)
    requires
        m.queue_fits(),
        forall|i: int|
            0 <= i < m.available_episode_numbers.len() ==> (
            #[trigger] m.available_episode_numbers[i]).len() <= usize::MAX,
    ensures
        m.season_confirmed().queue_fits(),
        m.queue_processed().queue_fits(),
        m.download_cleared().queue_fits(),
        m.queue_dropped().queue_fits(),
{
    lemma_season_place(m.available_seasons, m.ui.selected_season);
}

/// The place of a season lies in the list.
proof fn lemma_season_place(seasons: Seq<JsonV>, number: usize)
    ensures
        season_place(seasons, number) matches Some(i) ==> 0 <= i < seasons.len(),
    decreases seasons.len(),
{
    if seasons.len() > 0 {
        lemma_season_place(seasons.skip(1), number);
    }
}

/// At the start nothing is queued.
pub proof fn law_first_queue_fits(config: Option<JsonV>, catalog: TvCatalogV)
    ensures
        crate::tui::startup::first_app(config, catalog).queue_fits(),
{
}

} // verus!
