use light_backend::backend::Backend;
use light_backend::blockchain::{Blockchain, BlockchainStorage};
use light_backend::cache::keep_first;
use light_backend::error::ClientError;
use light_backend::fetcher::{Fetcher, RemoteReadRequest};
use light_backend::primitives::{AuthorityId, BlockId, Header, H256};
use light_backend::state::OnDemandState;
use parking_lot::RwLock;
use std::sync::atomic::{AtomicUsize, Ordering};
use std::sync::{Arc, Mutex};

fn digest(byte: u8) -> H256 {
    H256([byte; 32])
}

fn header_with_root(root: u8) -> Header {
    Header {
        parent_hash: digest(1),
        number: 2,
        state_root: digest(root),
        extrinsics_root: digest(3),
    }
}

#[test]
fn keep_first_fills_an_empty_cell() {
    let cell = RwLock::new(None);
    {
        let mut guard = cell.write();
        assert_eq!(keep_first(&mut guard, header_with_root(10)), header_with_root(10));
        assert_eq!(*guard, Some(header_with_root(10)));
    }
    assert_eq!(*cell.read(), Some(header_with_root(10)));
}

#[test]
fn keep_first_leaves_a_filled_cell() {
    let cell = RwLock::new(Some(header_with_root(10)));
    {
        let mut guard = cell.write();
        assert_eq!(keep_first(&mut guard, header_with_root(20)), header_with_root(10));
        assert_eq!(keep_first(&mut guard, header_with_root(30)), header_with_root(10));
    }
    assert_eq!(*cell.read(), Some(header_with_root(10)));
}

#[test]
fn keep_first_twice_keeps_the_first() {
    let cell = RwLock::new(None);
    {
        let mut guard = cell.write();
        assert_eq!(keep_first(&mut guard, header_with_root(10)), header_with_root(10));
    }
    {
        let mut guard = cell.write();
        assert_eq!(keep_first(&mut guard, header_with_root(20)), header_with_root(10));
    }
    assert_eq!(*cell.read(), Some(header_with_root(10)));
}

type View = OnDemandState<RacingStore, Recorder>;

/// A header store in which a second read of the same view overtakes the
/// first: while it serves the first lookup, it lets the view read once
/// more, and that inner read gets its header, and caches it, first.
struct RacingStore {
    view: Mutex<Option<Arc<View>>>,
    lookups: AtomicUsize,
}

impl BlockchainStorage for RacingStore {
    fn import_header(
        &self,
        _is_new_best: bool,
        _header: Header,
        _authorities: Option<Vec<AuthorityId>>,
    ) -> Result<(), ClientError> {
        Ok(())
    }

    fn header(&self, _id: BlockId) -> Result<Option<Header>, ClientError> {
        let lookup = self.lookups.fetch_add(1, Ordering::SeqCst) + 1;
        if lookup == 1 {
            let view = self.view.lock().unwrap().clone().unwrap();
            assert_eq!(view.storage(b"inner"), Ok(None));
        }
        Ok(Some(header_with_root(lookup as u8)))
    }

    fn hash(&self, _number: u64) -> Result<Option<H256>, ClientError> {
        Ok(None)
    }
}

struct Recorder {
    asked: Mutex<Vec<RemoteReadRequest>>,
}

impl Fetcher for Recorder {
    fn remote_read(&self, request: RemoteReadRequest) -> Result<Option<Vec<u8>>, ClientError> {
        self.asked.lock().unwrap().push(request);
        Ok(None)
    }
}

#[test]
fn a_read_that_was_overtaken_uses_the_cached_header() {
    let fetcher = Arc::new(Recorder { asked: Mutex::new(Vec::new()) });
    let store = RacingStore { view: Mutex::new(None), lookups: AtomicUsize::new(0) };
    let chain = Arc::new(Blockchain::new(store, &fetcher));
    let backend = Backend::new(chain.clone());
    let view = Arc::new(backend.state_at(BlockId::Hash(digest(5))).unwrap());
    *chain.storage().view.lock().unwrap() = Some(view.clone());

    assert_eq!(view.storage(b"outer"), Ok(None));
    assert_eq!(chain.storage().lookups.load(Ordering::SeqCst), 2);
    assert_eq!(view.storage(b"later"), Ok(None));
    assert_eq!(chain.storage().lookups.load(Ordering::SeqCst), 2);

    let asked = fetcher.asked.lock().unwrap();
    let keys: Vec<&[u8]> = asked.iter().map(|request| request.key.as_slice()).collect();
    assert_eq!(keys, vec![&b"inner"[..], &b"outer"[..], &b"later"[..]]);
    for request in asked.iter() {
        assert_eq!(request.block, digest(5));
        assert_eq!(request.header, header_with_root(2));
        assert_eq!(request.retry_count, None);
    }
    chain.storage().view.lock().unwrap().take();
}

/// A header store that counts its lookups where the count outlives it, and
/// answers each lookup with a header of its own.
struct CountingStore {
    lookups: Arc<AtomicUsize>,
}

impl BlockchainStorage for CountingStore {
    fn import_header(
        &self,
        _is_new_best: bool,
        _header: Header,
        _authorities: Option<Vec<AuthorityId>>,
    ) -> Result<(), ClientError> {
        Ok(())
    }

    fn header(&self, _id: BlockId) -> Result<Option<Header>, ClientError> {
        let lookup = self.lookups.fetch_add(1, Ordering::SeqCst) + 1;
        Ok(Some(header_with_root(lookup as u8)))
    }

    fn hash(&self, _number: u64) -> Result<Option<H256>, ClientError> {
        Ok(None)
    }
}

/// A fetcher with one answer to everything.
struct OneAnswer {
    asked: Mutex<Vec<RemoteReadRequest>>,
}

impl Fetcher for OneAnswer {
    fn remote_read(&self, request: RemoteReadRequest) -> Result<Option<Vec<u8>>, ClientError> {
        self.asked.lock().unwrap().push(request);
        Ok(Some(vec![1, 2, 3]))
    }
}

#[test]
fn a_view_with_its_header_reads_on_without_the_blockchain() {
    let lookups = Arc::new(AtomicUsize::new(0));
    let fetcher = Arc::new(OneAnswer { asked: Mutex::new(Vec::new()) });
    let chain = Arc::new(Blockchain::new(CountingStore { lookups: lookups.clone() }, &fetcher));
    let backend = Backend::new(chain);
    let view = backend.state_at(BlockId::Hash(digest(5))).unwrap();
    assert_eq!(lookups.load(Ordering::SeqCst), 0);
    assert_eq!(view.storage(&[97]), Ok(Some(vec![1, 2, 3])));
    assert_eq!(lookups.load(Ordering::SeqCst), 1);

    drop(backend);
    assert_eq!(view.storage(&[98]), Ok(Some(vec![1, 2, 3])));
    assert_eq!(lookups.load(Ordering::SeqCst), 1);
    let asked = fetcher.asked.lock().unwrap();
    assert_eq!(asked.len(), 2);
    assert_eq!(
        asked[1],
        RemoteReadRequest {
            block: digest(5),
            header: header_with_root(1),
            key: vec![98],
            retry_count: None,
        }
    );
}

#[test]
fn a_header_that_is_kept_is_not_replaced() {
    let lookups = Arc::new(AtomicUsize::new(0));
    let fetcher = Arc::new(OneAnswer { asked: Mutex::new(Vec::new()) });
    let chain = Arc::new(Blockchain::new(CountingStore { lookups: lookups.clone() }, &fetcher));
    let backend = Backend::new(chain);
    let view = backend.state_at(BlockId::Hash(digest(5))).unwrap();
    assert_eq!(view.header_for_read(None), Ok(header_with_root(1)));
    assert_eq!(view.header_for_read(None), Ok(header_with_root(1)));
    assert_eq!(lookups.load(Ordering::SeqCst), 2);
    assert_eq!(view.storage(b"key"), Ok(Some(vec![1, 2, 3])));
    assert_eq!(lookups.load(Ordering::SeqCst), 2);
    assert_eq!(fetcher.asked.lock().unwrap()[0].header, header_with_root(1));
}

#[test]
fn a_second_view_starts_with_a_cache_of_its_own() {
    let lookups = Arc::new(AtomicUsize::new(0));
    let fetcher = Arc::new(OneAnswer { asked: Mutex::new(Vec::new()) });
    let chain = Arc::new(Blockchain::new(CountingStore { lookups: lookups.clone() }, &fetcher));
    let backend = Backend::new(chain);
    let first = backend.state_at(BlockId::Hash(digest(5))).unwrap();
    first.storage(b"key").unwrap();
    let second = backend.state_at(BlockId::Hash(digest(5))).unwrap();
    assert_eq!(lookups.load(Ordering::SeqCst), 1);
    second.storage(b"key").unwrap();
    assert_eq!(lookups.load(Ordering::SeqCst), 2);
    first.storage(b"key").unwrap();
    assert_eq!(lookups.load(Ordering::SeqCst), 2);
    let asked = fetcher.asked.lock().unwrap();
    assert_eq!(asked[0].header, header_with_root(1));
    assert_eq!(asked[1].header, header_with_root(2));
    assert_eq!(asked[2].header, header_with_root(1));
}
