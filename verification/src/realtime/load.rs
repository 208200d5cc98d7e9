//! What to keep of the alerts that were downloaded, and when to download
//! again.

use crate::realtime::service_alerts::ServiceAlertEntity;
use crate::text::same_text;
use vstd::prelude::*;

verus! {

/// Seconds to wait before the feed of alerts is asked again.
pub const MIN_FETCH_SECS: i64 = 300;

/// Seconds for which a download of the static feed is taken as it is.
pub const STATIC_FEED_SECS: i64 = 86_400;

/// Whether a download is due at `now`: there is none yet, or the last one
/// is at least `wait` seconds old. Times are in seconds since the Unix
/// epoch.
pub open spec fn is_due(now: i64, last: Option<i64>, wait: i64) -> bool {
    match last {
        Some(last) => now - last >= wait,
        None => true,
    }
}

/// Decides whether to download again.
pub fn download_due(now: i64, last: Option<i64>, wait: i64) -> (r: bool)
    ensures
        r == is_due(now, last, wait),
{
    match last {
        Some(last) => (now as i128) - (last as i128) >= wait as i128,
        None => true,
    }
}

/// The alerts are in the order of their time, the newest first.
pub open spec fn newest_first(alerts: Seq<ServiceAlertEntity>) -> bool {
    forall|i: int, j: int|
        0 <= i < j < alerts.len() ==> (#[trigger] alerts[i]).timestamp >= (
        #[trigger] alerts[j]).timestamp
}

/// No two alerts of the list have the same identifier.
pub open spec fn ids_differ(alerts: Seq<ServiceAlertEntity>) -> bool {
    forall|i: int, j: int|
        0 <= i < j < alerts.len() ==> (#[trigger] alerts[i]).id@ != (#[trigger] alerts[j]).id@
}

/// Every alert of `kept` is one of `all`.
pub open spec fn taken_from(kept: Seq<ServiceAlertEntity>, all: Seq<ServiceAlertEntity>) -> bool {
    forall|k: int| 0 <= k < kept.len() ==> all.contains(#[trigger] kept[k])
}

/// `kept` holds an alert with the identifier of `alert` that is as new as
/// `alert` or newer.
pub open spec fn stands_for(kept: Seq<ServiceAlertEntity>, alert: ServiceAlertEntity) -> bool {
    exists|k: int|
        0 <= k < kept.len() && (#[trigger] kept[k]).id@ == alert.id@ && kept[k].timestamp
            >= alert.timestamp
}

/// `kept` is what is kept of `all`: its alerts are alerts of `all`, the
/// newest first and one for each identifier, and for every alert of `all`
/// there is one with its identifier that is as new or newer.
pub open spec fn newest_of_each(kept: Seq<ServiceAlertEntity>, all: Seq<ServiceAlertEntity>) -> bool {
    &&& newest_first(kept)
    &&& ids_differ(kept)
    &&& taken_from(kept, all)
    &&& forall|i: int| 0 <= i < all.len() ==> stands_for(kept, #[trigger] all[i])
}

fn place_of_id(kept: &Vec<ServiceAlertEntity>, id: &str) -> (r: Option<usize>)
    ensures
        match r {
            Some(at) => at < kept@.len() && kept@[at as int].id@ == id@,
            None => forall|k: int| 0 <= k < kept@.len() ==> (#[trigger] kept@[k]).id@ != id@,
        },
{
    let mut k: usize = 0;
    while k < kept.len()
        invariant
            k <= kept@.len(),
            forall|j: int| 0 <= j < k ==> (#[trigger] kept@[j]).id@ != id@,
        decreases kept.len() - k,
    {
        if same_text(kept[k].id.as_str(), id) {
            return Some(k);
        }
        k = k + 1;
    }
    None
}

fn place_by_time(kept: &Vec<ServiceAlertEntity>, timestamp: i64) -> (r: usize)
    requires
        newest_first(kept@),
    ensures
        r <= kept@.len(),
        forall|k: int| 0 <= k < r ==> (#[trigger] kept@[k]).timestamp >= timestamp,
        forall|k: int| r <= k < kept@.len() ==> (#[trigger] kept@[k]).timestamp <= timestamp,
{
    let mut k: usize = 0;
    while k < kept.len() && kept[k].timestamp >= timestamp
        invariant
            k <= kept@.len(),
            forall|j: int| 0 <= j < k ==> (#[trigger] kept@[j]).timestamp >= timestamp,
        decreases kept.len() - k,
    {
        k = k + 1;
    }
    proof {
        assert forall|j: int| k <= j < kept@.len() implies (#[trigger] kept@[j]).timestamp
            <= timestamp by {
            if j > k {
                assert(kept@[k as int].timestamp >= kept@[j].timestamp);
            }
        }
    }
    k
}

/// Putting an alert in at its place by time keeps the newest first.
proof fn lemma_insert_keeps_order(kept: Seq<ServiceAlertEntity>, at: int, alert: ServiceAlertEntity)
    requires
        newest_first(kept),
        0 <= at <= kept.len(),
        forall|k: int| 0 <= k < at ==> (#[trigger] kept[k]).timestamp >= alert.timestamp,
        forall|k: int| at <= k < kept.len() ==> (#[trigger] kept[k]).timestamp <= alert.timestamp,
    ensures
        newest_first(kept.insert(at, alert)),
{
    let after = kept.insert(at, alert);
    assert forall|i: int, j: int| 0 <= i < j < after.len() implies (
    #[trigger] after[i]).timestamp >= (#[trigger] after[j]).timestamp by {
        if i < at {
            assert(after[i] == kept[i]);
        } else if i > at {
            assert(after[i] == kept[i - 1]);
        }
        if j < at {
            assert(after[j] == kept[j]);
        } else if j > at {
            assert(after[j] == kept[j - 1]);
        }
    }
}

/// Keeps, of the alerts of several downloads, the newest of each
/// identifier, the newest first.
///
/// Which of two alerts with one identifier and one time is kept, and which
/// of two alerts with one time comes first, is left open.
pub fn keep_newest(alerts: Vec<ServiceAlertEntity>) -> (r: Vec<ServiceAlertEntity>)
    ensures
        newest_of_each(r@, alerts@),
{
    let ghost all = alerts@;
    let mut rest = alerts;
    let mut kept: Vec<ServiceAlertEntity> = Vec::new();
    while rest.len() > 0
        invariant
            rest@.len() <= all.len(),
            rest@ == all.subrange(0, rest@.len() as int),
            newest_first(kept@),
            ids_differ(kept@),
            taken_from(kept@, all),
            forall|i: int| rest@.len() <= i < all.len() ==> stands_for(kept@, #[trigger] all[i]),
        decreases rest@.len(),
    {
        let ghost before = kept@;
        let ghost n = rest@.len() - 1;
        let alert = rest.pop().unwrap();
        proof {
            assert(alert == all[n]);
            assert(rest@ =~= all.subrange(0, n));
        }
        match place_of_id(&kept, alert.id.as_str()) {
            Some(old) => {
                if alert.timestamp > kept[old].timestamp {
                    let ghost replaced = kept@[old as int];
                    kept.remove(old);
                    let ghost without = kept@;
                    proof {
                        assert forall|i: int, j: int| 0 <= i < j < without.len() implies (
                        #[trigger] without[i]).timestamp >= (#[trigger] without[j]).timestamp && (
                        #[trigger] without[i]).id@ != (#[trigger] without[j]).id@ by {
                            let a = if i < old {
                                i
                            } else {
                                i + 1
                            };
                            let b = if j < old {
                                j
                            } else {
                                j + 1
                            };
                            assert(without[i] == before[a]);
                            assert(without[j] == before[b]);
                        }
                        assert forall|k: int| 0 <= k < without.len() implies (
                        #[trigger] without[k]).id@ != alert.id@ && all.contains(without[k]) by {
                            let a = if k < old {
                                k
                            } else {
                                k + 1
                            };
                            assert(without[k] == before[a]);
                            if a < old {
                                assert(before[a].id@ != before[old as int].id@);
                            } else {
                                assert(before[old as int].id@ != before[a].id@);
                            }
                        }
                    }
                    let at = place_by_time(&kept, alert.timestamp);
                    proof {
                        lemma_insert_keeps_order(without, at as int, alert);
                    }
                    kept.insert(at, alert);
                    proof {
                        let after = kept@;
                        assert(after[at as int] == alert);
                        assert forall|i: int, j: int| 0 <= i < j < after.len() implies (
                        #[trigger] after[i]).id@ != (#[trigger] after[j]).id@ by {
                            if i != at && j != at {
                                let a = if i < at {
                                    i
                                } else {
                                    i - 1
                                };
                                let b = if j < at {
                                    j
                                } else {
                                    j - 1
                                };
                                assert(after[i] == without[a]);
                                assert(after[j] == without[b]);
                            } else if i == at {
                                assert(after[j] == without[j - 1]);
                            } else {
                                assert(after[i] == without[i]);
                            }
                        }
                        assert forall|k: int| 0 <= k < after.len() implies all.contains(
                            #[trigger] after[k],
                        ) by {
                            if k < at {
                                assert(after[k] == without[k]);
                            } else if k > at {
                                assert(after[k] == without[k - 1]);
                            } else {
                                assert(all[n] == after[k]);
                            }
                        }
                        assert forall|i: int| n <= i < all.len() implies stands_for(
                            after,
                            #[trigger] all[i],
                        ) by {
                            if i == n {
                                assert(after[at as int].id@ == all[i].id@);
                            } else {
                                let k = choose|k: int|
                                    0 <= k < before.len() && (#[trigger] before[k]).id@ == all[i].id@
                                        && before[k].timestamp >= all[i].timestamp;
                                if k == old {
                                    assert(after[at as int].id@ == all[i].id@);
                                } else {
                                    let w = if k < old {
                                        k
                                    } else {
                                        k - 1
                                    };
                                    assert(without[w] == before[k]);
                                    let v = if w < at {
                                        w
                                    } else {
                                        w + 1
                                    };
                                    assert(after[v] == without[w]);
                                }
                            }
                        }
                    }
                } else {
                    proof {
                        assert(kept@[old as int].id@ == all[n].id@);
                    }
                }
            },
            None => {
                let at = place_by_time(&kept, alert.timestamp);
                proof {
                    lemma_insert_keeps_order(before, at as int, alert);
                }
                kept.insert(at, alert);
                proof {
                    let after = kept@;
                    assert(after[at as int] == alert);
                    assert forall|i: int, j: int| 0 <= i < j < after.len() implies (
                    #[trigger] after[i]).id@ != (#[trigger] after[j]).id@ by {
                        if i != at && j != at {
                            let a = if i < at {
                                i
                            } else {
                                i - 1
                            };
                            let b = if j < at {
                                j
                            } else {
                                j - 1
                            };
                            assert(after[i] == before[a]);
                            assert(after[j] == before[b]);
                        } else if i == at {
                            assert(after[j] == before[j - 1]);
                        } else {
                            assert(after[i] == before[i]);
                        }
                    }
                    assert forall|k: int| 0 <= k < after.len() implies all.contains(
                        #[trigger] after[k],
                    ) by {
                        if k < at {
                            assert(after[k] == before[k]);
                        } else if k > at {
                            assert(after[k] == before[k - 1]);
                        } else {
                            assert(all[n] == after[k]);
                        }
                    }
                    assert forall|i: int| n <= i < all.len() implies stands_for(
                        after,
                        #[trigger] all[i],
                    ) by {
                        if i == n {
                            assert(after[at as int].id@ == all[i].id@);
                        } else {
                            let k = choose|k: int|
                                0 <= k < before.len() && (#[trigger] before[k]).id@ == all[i].id@
                                    && before[k].timestamp >= all[i].timestamp;
                            let v = if k < at {
                                k
                            } else {
                                k + 1
                            };
                            assert(after[v] == before[k]);
                        }
                    }
                }
            },
        }
    }
    kept
}

} // verus!
