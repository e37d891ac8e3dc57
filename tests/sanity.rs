use bbq::{BBQueue, Error};

fn queue(n: usize) -> BBQueue {
    BBQueue::new(vec![0u8; n])
}

#[test]
fn deref_deref_mut() {
    let mut bb = queue(6);
    let mut wgr = bb.grant(1).unwrap();
    wgr.set(0, 123);
    assert_eq!(wgr.len(), 1);
    bb.commit(1, wgr);
    let rgr = bb.read().unwrap();
    assert_eq!(rgr.buf()[0], 123);
    bb.release(1, rgr);
}

#[test]
fn static_allocator() {
    let mut bbq1 = queue(8);
    let mut bbq2 = queue(8);
    let mut wgr1 = bbq1.grant(3).unwrap();
    wgr1.copy_from_slice(&[1, 2, 3]);
    bbq1.commit(3, wgr1);
    assert!(bbq2.read().is_err());
    let rgr1 = bbq1.read().unwrap();
    assert_eq!(rgr1.buf(), &[1, 2, 3]);
}

#[test]
fn create_queue() {
    let mut b = queue(6);
    assert!(b.split().is_ok());
}

#[test]
fn direct_usage_sanity() {
    let mut bb = queue(6);
    assert_eq!(bb.read().err(), Some(Error::InsufficientSize));

    let mut x = bb.grant(4).unwrap();
    assert_eq!(bb.read().err(), Some(Error::InsufficientSize));
    x.copy_from_slice(&[1, 2, 3, 4]);
    assert_eq!(bb.read().err(), Some(Error::InsufficientSize));
    bb.commit(4, x);

    let a = bb.read().unwrap();
    assert_eq!(a.buf(), &[1, 2, 3, 4]);
    bb.release(2, a);

    let r = bb.read().unwrap();
    assert_eq!(r.buf(), &[3, 4]);
    bb.release(0, r);

    let mut x = bb.grant(2).unwrap();
    let r = bb.read().unwrap();
    assert_eq!(r.buf(), &[3, 4]);
    bb.release(0, r);

    x.copy_from_slice(&[11, 12]);
    let r = bb.read().unwrap();
    assert_eq!(r.buf(), &[3, 4]);
    bb.release(0, r);

    bb.commit(2, x);

    let a = bb.read().unwrap();
    assert_eq!(a.buf(), &[3, 4, 11, 12]);
    bb.release(2, a);
    let r = bb.read().unwrap();
    assert_eq!(r.buf(), &[11, 12]);
    bb.release(0, r);

    let mut x = bb.grant(3).unwrap();
    let r = bb.read().unwrap();
    assert_eq!(r.buf(), &[11, 12]);
    bb.release(0, r);

    x.copy_from_slice(&[21, 22, 23]);

    let r = bb.read().unwrap();
    assert_eq!(r.buf(), &[11, 12]);
    bb.release(0, r);
    bb.commit(3, x);

    // the wrapped bytes stay hidden until the older ones are released
    let a = bb.read().unwrap();
    assert_eq!(a.buf(), &[11, 12]);
    bb.release(2, a);

    let r = bb.read().unwrap();
    assert_eq!(r.buf(), &[21, 22, 23]);
    bb.release(0, r);

    assert!(bb.grant(10).is_err());
}

#[test]
fn spsc_usage_sanity() {
    let mut bb = queue(6);
    let (mut tx, mut rx) = bb.split().unwrap();
    assert_eq!(rx.read(&mut bb).err(), Some(Error::InsufficientSize));

    let mut x = tx.grant(&mut bb, 4).unwrap();
    assert_eq!(rx.read(&mut bb).err(), Some(Error::InsufficientSize));
    x.copy_from_slice(&[1, 2, 3, 4]);
    assert_eq!(rx.read(&mut bb).err(), Some(Error::InsufficientSize));
    tx.commit(&mut bb, 4, x);

    let a = rx.read(&mut bb).unwrap();
    assert_eq!(a.buf(), &[1, 2, 3, 4]);
    rx.release(&mut bb, 2, a);

    let r = rx.read(&mut bb).unwrap();
    assert_eq!(r.buf(), &[3, 4]);
    rx.release(&mut bb, 0, r);

    let mut x = tx.grant(&mut bb, 2).unwrap();
    let r = rx.read(&mut bb).unwrap();
    assert_eq!(r.buf(), &[3, 4]);
    rx.release(&mut bb, 0, r);

    x.copy_from_slice(&[11, 12]);
    let r = rx.read(&mut bb).unwrap();
    assert_eq!(r.buf(), &[3, 4]);
    rx.release(&mut bb, 0, r);

    tx.commit(&mut bb, 2, x);

    let a = rx.read(&mut bb).unwrap();
    assert_eq!(a.buf(), &[3, 4, 11, 12]);
    rx.release(&mut bb, 2, a);

    let r = rx.read(&mut bb).unwrap();
    assert_eq!(r.buf(), &[11, 12]);
    rx.release(&mut bb, 0, r);

    let mut x = tx.grant(&mut bb, 3).unwrap();
    let r = rx.read(&mut bb).unwrap();
    assert_eq!(r.buf(), &[11, 12]);
    rx.release(&mut bb, 0, r);

    x.copy_from_slice(&[21, 22, 23]);

    let r = rx.read(&mut bb).unwrap();
    assert_eq!(r.buf(), &[11, 12]);
    rx.release(&mut bb, 0, r);
    tx.commit(&mut bb, 3, x);

    let a = rx.read(&mut bb).unwrap();
    assert_eq!(a.buf(), &[11, 12]);
    rx.release(&mut bb, 2, a);

    assert_eq!(rx.read(&mut bb).unwrap().buf(), &[21, 22, 23]);

    assert!(tx.grant(&mut bb, 10).is_err());
}
