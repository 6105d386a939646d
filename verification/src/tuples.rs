use vstd::prelude::*;
use crate::args::{next_bound, ToBatchSql};
use crate::error::BatchError;
use crate::params::{BatchParams, BatchParamsView};

verus! {

impl<A: ToBatchSql, B: ToBatchSql, C: ToBatchSql> ToBatchSql for (A, B, C) {
    open spec fn width() -> nat {
        A::width() + B::width() + C::width()
    }

    proof fn lemma_width() {
        A::lemma_width();
    }

    open spec fn bind_ok(&self, pos: usize, pre: BatchParamsView, post: BatchParamsView, r: Result<usize, BatchError>) -> bool {
        exists|m1: BatchParamsView, q1: Result<usize, BatchError>|
            #[trigger] self.0.bind_ok(pos, pre, m1, q1) && match q1 {
                Err(_) => post == m1 && r == q1,
                Ok(p1) => exists|m2: BatchParamsView, q2: Result<usize, BatchError>|
                    #[trigger] self.1.bind_ok(p1, m1, m2, q2) && match q2 {
                        Err(_) => post == m2 && r == q2,
                        Ok(p2) => self.2.bind_ok(p2, m2, post, r),
                    },
            }
    }

    open spec fn update_ok(&self, after: Self, pos: usize, batch_size: usize, params: BatchParamsView, r: Result<usize, BatchError>) -> bool {
        exists|q1: Result<usize, BatchError>|
            #[trigger] self.0.update_ok(after.0, pos, batch_size, params, q1) && match q1 {
                Err(_) => after.1 == self.1 && after.2 == self.2 && r == q1,
                Ok(p1) => exists|q2: Result<usize, BatchError>|
                    #[trigger] self.1.update_ok(after.1, p1, batch_size, params, q2) && match q2 {
                        Err(_) => after.2 == self.2 && r == q2,
                        Ok(p2) => self.2.update_ok(after.2, p2, batch_size, params, r),
                    },
            }
    }

    /// Binds the arguments one after the other, each from the position the
    /// one before it gives back; the first refusal ends it.
    fn bind_batch_to(&mut self, pos: usize, batch_size: usize, params: &mut BatchParams) -> (r: Result<usize, BatchError>) {
        let ghost s0 = *self;
        let ghost v0 = params@;
        let ghost c = v0.count();
        let ghost m = if pos >= c { pos as nat } else { c };
        proof {
            assert(next_bound(pos, c, Self::width()) == m + Self::width());
        }
        let p0 = pos;
        let r1 = self.0.bind_batch_to(p0, batch_size, params);
        let ghost v1 = params@;
        let p1 = match r1 {
            Ok(p) => p,
            Err(e) => {
                proof {
                    assert(s0.0.bind_ok(p0, v0, v1, r1));
                    assert(s0.bind_ok(pos, v0, v1, r1));
                }
                return Err(e);
            },
        };
        assert(v1.count() == c && p1 <= m + A::width());
        let r2 = self.1.bind_batch_to(p1, batch_size, params);
        let ghost v2 = params@;
        let p2 = match r2 {
            Ok(p) => p,
            Err(e) => {
                proof {
                    assert(s0.0.bind_ok(p0, v0, v1, r1));
                    assert(s0.1.bind_ok(p1, v1, v2, r2));
                    assert(s0.bind_ok(pos, v0, v2, r2));
                }
                return Err(e);
            },
        };
        assert(v2.count() == c && p2 <= m + A::width() + B::width());
        let r3 = self.2.bind_batch_to(p2, batch_size, params);
        let ghost v3 = params@;
        proof {
            assert(s0.0.bind_ok(p0, v0, v1, r1));
            assert(s0.1.bind_ok(p1, v1, v2, r2));
            assert(s0.2.bind_ok(p2, v2, v3, r3));
            assert(s0.bind_ok(pos, v0, v3, r3));
        }
        r3
    }

    /// Updates the arguments one after the other; the first refusal ends it.
    fn update_batch_from_bind(&mut self, pos: usize, batch_size: usize, params: &BatchParams) -> (r: Result<usize, BatchError>) {
        let ghost s0 = *self;
        let ghost c = params@.count();
        let ghost m = if pos >= c { pos as nat } else { c };
        proof {
            assert(next_bound(pos, c, Self::width()) == m + Self::width());
        }
        let p0 = pos;
        let r1 = self.0.update_batch_from_bind(p0, batch_size, params);
        let p1 = match r1 {
            Ok(p) => p,
            Err(e) => {
                proof {
                    let cur = *self;
                    assert(s0.0.update_ok(cur.0, p0, batch_size, params@, r1));
                    assert(s0.update_ok(cur, pos, batch_size, params@, r1));
                }
                return Err(e);
            },
        };
        assert(p1 <= m + A::width());
        let r2 = self.1.update_batch_from_bind(p1, batch_size, params);
        let p2 = match r2 {
            Ok(p) => p,
            Err(e) => {
                proof {
                    let cur = *self;
                    assert(s0.0.update_ok(cur.0, p0, batch_size, params@, r1));
                    assert(s0.1.update_ok(cur.1, p1, batch_size, params@, r2));
                    assert(s0.update_ok(cur, pos, batch_size, params@, r2));
                }
                return Err(e);
            },
        };
        assert(p2 <= m + A::width() + B::width());
        let r3 = self.2.update_batch_from_bind(p2, batch_size, params);
        proof {
                let cur = *self;
                assert(s0.0.update_ok(cur.0, p0, batch_size, params@, r1));
                assert(s0.1.update_ok(cur.1, p1, batch_size, params@, r2));
                assert(s0.2.update_ok(cur.2, p2, batch_size, params@, r3));
            assert(s0.update_ok(cur, pos, batch_size, params@, r3));
        }
        r3
    }
}

impl<A: ToBatchSql, B: ToBatchSql, C: ToBatchSql, D: ToBatchSql> ToBatchSql for (A, B, C, D) {
    open spec fn width() -> nat {
        A::width() + B::width() + C::width() + D::width()
    }

    proof fn lemma_width() {
        A::lemma_width();
    }

    open spec fn bind_ok(&self, pos: usize, pre: BatchParamsView, post: BatchParamsView, r: Result<usize, BatchError>) -> bool {
        exists|m1: BatchParamsView, q1: Result<usize, BatchError>|
            #[trigger] self.0.bind_ok(pos, pre, m1, q1) && match q1 {
                Err(_) => post == m1 && r == q1,
                Ok(p1) => exists|m2: BatchParamsView, q2: Result<usize, BatchError>|
                    #[trigger] self.1.bind_ok(p1, m1, m2, q2) && match q2 {
                        Err(_) => post == m2 && r == q2,
                        Ok(p2) => exists|m3: BatchParamsView, q3: Result<usize, BatchError>|
                            #[trigger] self.2.bind_ok(p2, m2, m3, q3) && match q3 {
                                Err(_) => post == m3 && r == q3,
                                Ok(p3) => self.3.bind_ok(p3, m3, post, r),
                            },
                    },
            }
    }

    open spec fn update_ok(&self, after: Self, pos: usize, batch_size: usize, params: BatchParamsView, r: Result<usize, BatchError>) -> bool {
        exists|q1: Result<usize, BatchError>|
            #[trigger] self.0.update_ok(after.0, pos, batch_size, params, q1) && match q1 {
                Err(_) => after.1 == self.1 && after.2 == self.2 && after.3 == self.3 && r == q1,
                Ok(p1) => exists|q2: Result<usize, BatchError>|
                    #[trigger] self.1.update_ok(after.1, p1, batch_size, params, q2) && match q2 {
                        Err(_) => after.2 == self.2 && after.3 == self.3 && r == q2,
                        Ok(p2) => exists|q3: Result<usize, BatchError>|
                            #[trigger] self.2.update_ok(after.2, p2, batch_size, params, q3) && match q3 {
                                Err(_) => after.3 == self.3 && r == q3,
                                Ok(p3) => self.3.update_ok(after.3, p3, batch_size, params, r),
                            },
                    },
            }
    }

    /// Binds the arguments one after the other, each from the position the
    /// one before it gives back; the first refusal ends it.
    fn bind_batch_to(&mut self, pos: usize, batch_size: usize, params: &mut BatchParams) -> (r: Result<usize, BatchError>) {
        let ghost s0 = *self;
        let ghost v0 = params@;
        let ghost c = v0.count();
        let ghost m = if pos >= c { pos as nat } else { c };
        proof {
            assert(next_bound(pos, c, Self::width()) == m + Self::width());
        }
        let p0 = pos;
        let r1 = self.0.bind_batch_to(p0, batch_size, params);
        let ghost v1 = params@;
        let p1 = match r1 {
            Ok(p) => p,
            Err(e) => {
                proof {
                    assert(s0.0.bind_ok(p0, v0, v1, r1));
                    assert(s0.bind_ok(pos, v0, v1, r1));
                }
                return Err(e);
            },
        };
        assert(v1.count() == c && p1 <= m + A::width());
        let r2 = self.1.bind_batch_to(p1, batch_size, params);
        let ghost v2 = params@;
        let p2 = match r2 {
            Ok(p) => p,
            Err(e) => {
                proof {
                    assert(s0.0.bind_ok(p0, v0, v1, r1));
                    assert(s0.1.bind_ok(p1, v1, v2, r2));
                    assert(s0.bind_ok(pos, v0, v2, r2));
                }
                return Err(e);
            },
        };
        assert(v2.count() == c && p2 <= m + A::width() + B::width());
        let r3 = self.2.bind_batch_to(p2, batch_size, params);
        let ghost v3 = params@;
        let p3 = match r3 {
            Ok(p) => p,
            Err(e) => {
                proof {
                    assert(s0.0.bind_ok(p0, v0, v1, r1));
                    assert(s0.1.bind_ok(p1, v1, v2, r2));
                    assert(s0.2.bind_ok(p2, v2, v3, r3));
                    assert(s0.bind_ok(pos, v0, v3, r3));
                }
                return Err(e);
            },
        };
        assert(v3.count() == c && p3 <= m + A::width() + B::width() + C::width());
        let r4 = self.3.bind_batch_to(p3, batch_size, params);
        let ghost v4 = params@;
        proof {
            assert(s0.0.bind_ok(p0, v0, v1, r1));
            assert(s0.1.bind_ok(p1, v1, v2, r2));
            assert(s0.2.bind_ok(p2, v2, v3, r3));
            assert(s0.3.bind_ok(p3, v3, v4, r4));
            assert(s0.bind_ok(pos, v0, v4, r4));
        }
        r4
    }

    /// Updates the arguments one after the other; the first refusal ends it.
    fn update_batch_from_bind(&mut self, pos: usize, batch_size: usize, params: &BatchParams) -> (r: Result<usize, BatchError>) {
        let ghost s0 = *self;
        let ghost c = params@.count();
        let ghost m = if pos >= c { pos as nat } else { c };
        proof {
            assert(next_bound(pos, c, Self::width()) == m + Self::width());
        }
        let p0 = pos;
        let r1 = self.0.update_batch_from_bind(p0, batch_size, params);
        let p1 = match r1 {
            Ok(p) => p,
            Err(e) => {
                proof {
                    let cur = *self;
                    assert(s0.0.update_ok(cur.0, p0, batch_size, params@, r1));
                    assert(s0.update_ok(cur, pos, batch_size, params@, r1));
                }
                return Err(e);
            },
        };
        assert(p1 <= m + A::width());
        let r2 = self.1.update_batch_from_bind(p1, batch_size, params);
        let p2 = match r2 {
            Ok(p) => p,
            Err(e) => {
                proof {
                    let cur = *self;
                    assert(s0.0.update_ok(cur.0, p0, batch_size, params@, r1));
                    assert(s0.1.update_ok(cur.1, p1, batch_size, params@, r2));
                    assert(s0.update_ok(cur, pos, batch_size, params@, r2));
                }
                return Err(e);
            },
        };
        assert(p2 <= m + A::width() + B::width());
        let r3 = self.2.update_batch_from_bind(p2, batch_size, params);
        let p3 = match r3 {
            Ok(p) => p,
            Err(e) => {
                proof {
                    let cur = *self;
                    assert(s0.0.update_ok(cur.0, p0, batch_size, params@, r1));
                    assert(s0.1.update_ok(cur.1, p1, batch_size, params@, r2));
                    assert(s0.2.update_ok(cur.2, p2, batch_size, params@, r3));
                    assert(s0.update_ok(cur, pos, batch_size, params@, r3));
                }
                return Err(e);
            },
        };
        assert(p3 <= m + A::width() + B::width() + C::width());
        let r4 = self.3.update_batch_from_bind(p3, batch_size, params);
        proof {
                let cur = *self;
                assert(s0.0.update_ok(cur.0, p0, batch_size, params@, r1));
                assert(s0.1.update_ok(cur.1, p1, batch_size, params@, r2));
                assert(s0.2.update_ok(cur.2, p2, batch_size, params@, r3));
                assert(s0.3.update_ok(cur.3, p3, batch_size, params@, r4));
            assert(s0.update_ok(cur, pos, batch_size, params@, r4));
        }
        r4
    }
}

impl<A: ToBatchSql, B: ToBatchSql, C: ToBatchSql, D: ToBatchSql, E: ToBatchSql> ToBatchSql for (A, B, C, D, E) {
    open spec fn width() -> nat {
        A::width() + B::width() + C::width() + D::width() + E::width()
    }

    proof fn lemma_width() {
        A::lemma_width();
    }

    open spec fn bind_ok(&self, pos: usize, pre: BatchParamsView, post: BatchParamsView, r: Result<usize, BatchError>) -> bool {
        exists|m1: BatchParamsView, q1: Result<usize, BatchError>|
            #[trigger] self.0.bind_ok(pos, pre, m1, q1) && match q1 {
                Err(_) => post == m1 && r == q1,
                Ok(p1) => exists|m2: BatchParamsView, q2: Result<usize, BatchError>|
                    #[trigger] self.1.bind_ok(p1, m1, m2, q2) && match q2 {
                        Err(_) => post == m2 && r == q2,
                        Ok(p2) => exists|m3: BatchParamsView, q3: Result<usize, BatchError>|
                            #[trigger] self.2.bind_ok(p2, m2, m3, q3) && match q3 {
                                Err(_) => post == m3 && r == q3,
                                Ok(p3) => exists|m4: BatchParamsView, q4: Result<usize, BatchError>|
                                    #[trigger] self.3.bind_ok(p3, m3, m4, q4) && match q4 {
                                        Err(_) => post == m4 && r == q4,
                                        Ok(p4) => self.4.bind_ok(p4, m4, post, r),
                                    },
                            },
                    },
            }
    }

    open spec fn update_ok(&self, after: Self, pos: usize, batch_size: usize, params: BatchParamsView, r: Result<usize, BatchError>) -> bool {
        exists|q1: Result<usize, BatchError>|
            #[trigger] self.0.update_ok(after.0, pos, batch_size, params, q1) && match q1 {
                Err(_) => after.1 == self.1 && after.2 == self.2 && after.3 == self.3 && after.4 == self.4 && r == q1,
                Ok(p1) => exists|q2: Result<usize, BatchError>|
                    #[trigger] self.1.update_ok(after.1, p1, batch_size, params, q2) && match q2 {
                        Err(_) => after.2 == self.2 && after.3 == self.3 && after.4 == self.4 && r == q2,
                        Ok(p2) => exists|q3: Result<usize, BatchError>|
                            #[trigger] self.2.update_ok(after.2, p2, batch_size, params, q3) && match q3 {
                                Err(_) => after.3 == self.3 && after.4 == self.4 && r == q3,
                                Ok(p3) => exists|q4: Result<usize, BatchError>|
                                    #[trigger] self.3.update_ok(after.3, p3, batch_size, params, q4) && match q4 {
                                        Err(_) => after.4 == self.4 && r == q4,
                                        Ok(p4) => self.4.update_ok(after.4, p4, batch_size, params, r),
                                    },
                            },
                    },
            }
    }

    /// Binds the arguments one after the other, each from the position the
    /// one before it gives back; the first refusal ends it.
    fn bind_batch_to(&mut self, pos: usize, batch_size: usize, params: &mut BatchParams) -> (r: Result<usize, BatchError>) {
        let ghost s0 = *self;
        let ghost v0 = params@;
        let ghost c = v0.count();
        let ghost m = if pos >= c { pos as nat } else { c };
        proof {
            assert(next_bound(pos, c, Self::width()) == m + Self::width());
        }
        let p0 = pos;
        let r1 = self.0.bind_batch_to(p0, batch_size, params);
        let ghost v1 = params@;
        let p1 = match r1 {
            Ok(p) => p,
            Err(e) => {
                proof {
                    assert(s0.0.bind_ok(p0, v0, v1, r1));
                    assert(s0.bind_ok(pos, v0, v1, r1));
                }
                return Err(e);
            },
        };
        assert(v1.count() == c && p1 <= m + A::width());
        let r2 = self.1.bind_batch_to(p1, batch_size, params);
        let ghost v2 = params@;
        let p2 = match r2 {
            Ok(p) => p,
            Err(e) => {
                proof {
                    assert(s0.0.bind_ok(p0, v0, v1, r1));
                    assert(s0.1.bind_ok(p1, v1, v2, r2));
                    assert(s0.bind_ok(pos, v0, v2, r2));
                }
                return Err(e);
            },
        };
        assert(v2.count() == c && p2 <= m + A::width() + B::width());
        let r3 = self.2.bind_batch_to(p2, batch_size, params);
        let ghost v3 = params@;
        let p3 = match r3 {
            Ok(p) => p,
            Err(e) => {
                proof {
                    assert(s0.0.bind_ok(p0, v0, v1, r1));
                    assert(s0.1.bind_ok(p1, v1, v2, r2));
                    assert(s0.2.bind_ok(p2, v2, v3, r3));
                    assert(s0.bind_ok(pos, v0, v3, r3));
                }
                return Err(e);
            },
        };
        assert(v3.count() == c && p3 <= m + A::width() + B::width() + C::width());
        let r4 = self.3.bind_batch_to(p3, batch_size, params);
        let ghost v4 = params@;
        let p4 = match r4 {
            Ok(p) => p,
            Err(e) => {
                proof {
                    assert(s0.0.bind_ok(p0, v0, v1, r1));
                    assert(s0.1.bind_ok(p1, v1, v2, r2));
                    assert(s0.2.bind_ok(p2, v2, v3, r3));
                    assert(s0.3.bind_ok(p3, v3, v4, r4));
                    assert(s0.bind_ok(pos, v0, v4, r4));
                }
                return Err(e);
            },
        };
        assert(v4.count() == c && p4 <= m + A::width() + B::width() + C::width() + D::width());
        let r5 = self.4.bind_batch_to(p4, batch_size, params);
        let ghost v5 = params@;
        proof {
            assert(s0.0.bind_ok(p0, v0, v1, r1));
            assert(s0.1.bind_ok(p1, v1, v2, r2));
            assert(s0.2.bind_ok(p2, v2, v3, r3));
            assert(s0.3.bind_ok(p3, v3, v4, r4));
            assert(s0.4.bind_ok(p4, v4, v5, r5));
            assert(s0.bind_ok(pos, v0, v5, r5));
        }
        r5
    }

    /// Updates the arguments one after the other; the first refusal ends it.
    fn update_batch_from_bind(&mut self, pos: usize, batch_size: usize, params: &BatchParams) -> (r: Result<usize, BatchError>) {
        let ghost s0 = *self;
        let ghost c = params@.count();
        let ghost m = if pos >= c { pos as nat } else { c };
        proof {
            assert(next_bound(pos, c, Self::width()) == m + Self::width());
        }
        let p0 = pos;
        let r1 = self.0.update_batch_from_bind(p0, batch_size, params);
        let p1 = match r1 {
            Ok(p) => p,
            Err(e) => {
                proof {
                    let cur = *self;
                    assert(s0.0.update_ok(cur.0, p0, batch_size, params@, r1));
                    assert(s0.update_ok(cur, pos, batch_size, params@, r1));
                }
                return Err(e);
            },
        };
        assert(p1 <= m + A::width());
        let r2 = self.1.update_batch_from_bind(p1, batch_size, params);
        let p2 = match r2 {
            Ok(p) => p,
            Err(e) => {
                proof {
                    let cur = *self;
                    assert(s0.0.update_ok(cur.0, p0, batch_size, params@, r1));
                    assert(s0.1.update_ok(cur.1, p1, batch_size, params@, r2));
                    assert(s0.update_ok(cur, pos, batch_size, params@, r2));
                }
                return Err(e);
            },
        };
        assert(p2 <= m + A::width() + B::width());
        let r3 = self.2.update_batch_from_bind(p2, batch_size, params);
        let p3 = match r3 {
            Ok(p) => p,
            Err(e) => {
                proof {
                    let cur = *self;
                    assert(s0.0.update_ok(cur.0, p0, batch_size, params@, r1));
                    assert(s0.1.update_ok(cur.1, p1, batch_size, params@, r2));
                    assert(s0.2.update_ok(cur.2, p2, batch_size, params@, r3));
                    assert(s0.update_ok(cur, pos, batch_size, params@, r3));
                }
                return Err(e);
            },
        };
        assert(p3 <= m + A::width() + B::width() + C::width());
        let r4 = self.3.update_batch_from_bind(p3, batch_size, params);
        let p4 = match r4 {
            Ok(p) => p,
            Err(e) => {
                proof {
                    let cur = *self;
                    assert(s0.0.update_ok(cur.0, p0, batch_size, params@, r1));
                    assert(s0.1.update_ok(cur.1, p1, batch_size, params@, r2));
                    assert(s0.2.update_ok(cur.2, p2, batch_size, params@, r3));
                    assert(s0.3.update_ok(cur.3, p3, batch_size, params@, r4));
                    assert(s0.update_ok(cur, pos, batch_size, params@, r4));
                }
                return Err(e);
            },
        };
        assert(p4 <= m + A::width() + B::width() + C::width() + D::width());
        let r5 = self.4.update_batch_from_bind(p4, batch_size, params);
        proof {
                let cur = *self;
                assert(s0.0.update_ok(cur.0, p0, batch_size, params@, r1));
                assert(s0.1.update_ok(cur.1, p1, batch_size, params@, r2));
                assert(s0.2.update_ok(cur.2, p2, batch_size, params@, r3));
                assert(s0.3.update_ok(cur.3, p3, batch_size, params@, r4));
                assert(s0.4.update_ok(cur.4, p4, batch_size, params@, r5));
            assert(s0.update_ok(cur, pos, batch_size, params@, r5));
        }
        r5
    }
}

impl<A: ToBatchSql, B: ToBatchSql, C: ToBatchSql, D: ToBatchSql, E: ToBatchSql, F: ToBatchSql> ToBatchSql for (A, B, C, D, E, F) {
    open spec fn width() -> nat {
        A::width() + B::width() + C::width() + D::width() + E::width() + F::width()
    }

    proof fn lemma_width() {
        A::lemma_width();
    }

    open spec fn bind_ok(&self, pos: usize, pre: BatchParamsView, post: BatchParamsView, r: Result<usize, BatchError>) -> bool {
        exists|m1: BatchParamsView, q1: Result<usize, BatchError>|
            #[trigger] self.0.bind_ok(pos, pre, m1, q1) && match q1 {
                Err(_) => post == m1 && r == q1,
                Ok(p1) => exists|m2: BatchParamsView, q2: Result<usize, BatchError>|
                    #[trigger] self.1.bind_ok(p1, m1, m2, q2) && match q2 {
                        Err(_) => post == m2 && r == q2,
                        Ok(p2) => exists|m3: BatchParamsView, q3: Result<usize, BatchError>|
                            #[trigger] self.2.bind_ok(p2, m2, m3, q3) && match q3 {
                                Err(_) => post == m3 && r == q3,
                                Ok(p3) => exists|m4: BatchParamsView, q4: Result<usize, BatchError>|
                                    #[trigger] self.3.bind_ok(p3, m3, m4, q4) && match q4 {
                                        Err(_) => post == m4 && r == q4,
                                        Ok(p4) => exists|m5: BatchParamsView, q5: Result<usize, BatchError>|
                                            #[trigger] self.4.bind_ok(p4, m4, m5, q5) && match q5 {
                                                Err(_) => post == m5 && r == q5,
                                                Ok(p5) => self.5.bind_ok(p5, m5, post, r),
                                            },
                                    },
                            },
                    },
            }
    }

    open spec fn update_ok(&self, after: Self, pos: usize, batch_size: usize, params: BatchParamsView, r: Result<usize, BatchError>) -> bool {
        exists|q1: Result<usize, BatchError>|
            #[trigger] self.0.update_ok(after.0, pos, batch_size, params, q1) && match q1 {
                Err(_) => after.1 == self.1 && after.2 == self.2 && after.3 == self.3 && after.4 == self.4 && after.5 == self.5 && r == q1,
                Ok(p1) => exists|q2: Result<usize, BatchError>|
                    #[trigger] self.1.update_ok(after.1, p1, batch_size, params, q2) && match q2 {
                        Err(_) => after.2 == self.2 && after.3 == self.3 && after.4 == self.4 && after.5 == self.5 && r == q2,
                        Ok(p2) => exists|q3: Result<usize, BatchError>|
                            #[trigger] self.2.update_ok(after.2, p2, batch_size, params, q3) && match q3 {
                                Err(_) => after.3 == self.3 && after.4 == self.4 && after.5 == self.5 && r == q3,
                                Ok(p3) => exists|q4: Result<usize, BatchError>|
                                    #[trigger] self.3.update_ok(after.3, p3, batch_size, params, q4) && match q4 {
                                        Err(_) => after.4 == self.4 && after.5 == self.5 && r == q4,
                                        Ok(p4) => exists|q5: Result<usize, BatchError>|
                                            #[trigger] self.4.update_ok(after.4, p4, batch_size, params, q5) && match q5 {
                                                Err(_) => after.5 == self.5 && r == q5,
                                                Ok(p5) => self.5.update_ok(after.5, p5, batch_size, params, r),
                                            },
                                    },
                            },
                    },
            }
    }

    /// Binds the arguments one after the other, each from the position the
    /// one before it gives back; the first refusal ends it.
    fn bind_batch_to(&mut self, pos: usize, batch_size: usize, params: &mut BatchParams) -> (r: Result<usize, BatchError>) {
        let ghost s0 = *self;
        let ghost v0 = params@;
        let ghost c = v0.count();
        let ghost m = if pos >= c { pos as nat } else { c };
        proof {
            assert(next_bound(pos, c, Self::width()) == m + Self::width());
        }
        let p0 = pos;
        let r1 = self.0.bind_batch_to(p0, batch_size, params);
        let ghost v1 = params@;
        let p1 = match r1 {
            Ok(p) => p,
            Err(e) => {
                proof {
                    assert(s0.0.bind_ok(p0, v0, v1, r1));
                    assert(s0.bind_ok(pos, v0, v1, r1));
                }
                return Err(e);
            },
        };
        assert(v1.count() == c && p1 <= m + A::width());
        let r2 = self.1.bind_batch_to(p1, batch_size, params);
        let ghost v2 = params@;
        let p2 = match r2 {
            Ok(p) => p,
            Err(e) => {
                proof {
                    assert(s0.0.bind_ok(p0, v0, v1, r1));
                    assert(s0.1.bind_ok(p1, v1, v2, r2));
                    assert(s0.bind_ok(pos, v0, v2, r2));
                }
                return Err(e);
            },
        };
        assert(v2.count() == c && p2 <= m + A::width() + B::width());
        let r3 = self.2.bind_batch_to(p2, batch_size, params);
        let ghost v3 = params@;
        let p3 = match r3 {
            Ok(p) => p,
            Err(e) => {
                proof {
                    assert(s0.0.bind_ok(p0, v0, v1, r1));
                    assert(s0.1.bind_ok(p1, v1, v2, r2));
                    assert(s0.2.bind_ok(p2, v2, v3, r3));
                    assert(s0.bind_ok(pos, v0, v3, r3));
                }
                return Err(e);
            },
        };
        assert(v3.count() == c && p3 <= m + A::width() + B::width() + C::width());
        let r4 = self.3.bind_batch_to(p3, batch_size, params);
        let ghost v4 = params@;
        let p4 = match r4 {
            Ok(p) => p,
            Err(e) => {
                proof {
                    assert(s0.0.bind_ok(p0, v0, v1, r1));
                    assert(s0.1.bind_ok(p1, v1, v2, r2));
                    assert(s0.2.bind_ok(p2, v2, v3, r3));
                    assert(s0.3.bind_ok(p3, v3, v4, r4));
                    assert(s0.bind_ok(pos, v0, v4, r4));
                }
                return Err(e);
            },
        };
        assert(v4.count() == c && p4 <= m + A::width() + B::width() + C::width() + D::width());
        let r5 = self.4.bind_batch_to(p4, batch_size, params);
        let ghost v5 = params@;
        let p5 = match r5 {
            Ok(p) => p,
            Err(e) => {
                proof {
                    assert(s0.0.bind_ok(p0, v0, v1, r1));
                    assert(s0.1.bind_ok(p1, v1, v2, r2));
                    assert(s0.2.bind_ok(p2, v2, v3, r3));
                    assert(s0.3.bind_ok(p3, v3, v4, r4));
                    assert(s0.4.bind_ok(p4, v4, v5, r5));
                    assert(s0.bind_ok(pos, v0, v5, r5));
                }
                return Err(e);
            },
        };
        assert(v5.count() == c && p5 <= m + A::width() + B::width() + C::width() + D::width() + E::width());
        let r6 = self.5.bind_batch_to(p5, batch_size, params);
        let ghost v6 = params@;
        proof {
            assert(s0.0.bind_ok(p0, v0, v1, r1));
            assert(s0.1.bind_ok(p1, v1, v2, r2));
            assert(s0.2.bind_ok(p2, v2, v3, r3));
            assert(s0.3.bind_ok(p3, v3, v4, r4));
            assert(s0.4.bind_ok(p4, v4, v5, r5));
            assert(s0.5.bind_ok(p5, v5, v6, r6));
            assert(s0.bind_ok(pos, v0, v6, r6));
        }
        r6
    }

    /// Updates the arguments one after the other; the first refusal ends it.
    fn update_batch_from_bind(&mut self, pos: usize, batch_size: usize, params: &BatchParams) -> (r: Result<usize, BatchError>) {
        let ghost s0 = *self;
        let ghost c = params@.count();
        let ghost m = if pos >= c { pos as nat } else { c };
        proof {
            assert(next_bound(pos, c, Self::width()) == m + Self::width());
        }
        let p0 = pos;
        let r1 = self.0.update_batch_from_bind(p0, batch_size, params);
        let p1 = match r1 {
            Ok(p) => p,
            Err(e) => {
                proof {
                    let cur = *self;
                    assert(s0.0.update_ok(cur.0, p0, batch_size, params@, r1));
                    assert(s0.update_ok(cur, pos, batch_size, params@, r1));
                }
                return Err(e);
            },
        };
        assert(p1 <= m + A::width());
        let r2 = self.1.update_batch_from_bind(p1, batch_size, params);
        let p2 = match r2 {
            Ok(p) => p,
            Err(e) => {
                proof {
                    let cur = *self;
                    assert(s0.0.update_ok(cur.0, p0, batch_size, params@, r1));
                    assert(s0.1.update_ok(cur.1, p1, batch_size, params@, r2));
                    assert(s0.update_ok(cur, pos, batch_size, params@, r2));
                }
                return Err(e);
            },
        };
        assert(p2 <= m + A::width() + B::width());
        let r3 = self.2.update_batch_from_bind(p2, batch_size, params);
        let p3 = match r3 {
            Ok(p) => p,
            Err(e) => {
                proof {
                    let cur = *self;
                    assert(s0.0.update_ok(cur.0, p0, batch_size, params@, r1));
                    assert(s0.1.update_ok(cur.1, p1, batch_size, params@, r2));
                    assert(s0.2.update_ok(cur.2, p2, batch_size, params@, r3));
                    assert(s0.update_ok(cur, pos, batch_size, params@, r3));
                }
                return Err(e);
            },
        };
        assert(p3 <= m + A::width() + B::width() + C::width());
        let r4 = self.3.update_batch_from_bind(p3, batch_size, params);
        let p4 = match r4 {
            Ok(p) => p,
            Err(e) => {
                proof {
                    let cur = *self;
                    assert(s0.0.update_ok(cur.0, p0, batch_size, params@, r1));
                    assert(s0.1.update_ok(cur.1, p1, batch_size, params@, r2));
                    assert(s0.2.update_ok(cur.2, p2, batch_size, params@, r3));
                    assert(s0.3.update_ok(cur.3, p3, batch_size, params@, r4));
                    assert(s0.update_ok(cur, pos, batch_size, params@, r4));
                }
                return Err(e);
            },
        };
        assert(p4 <= m + A::width() + B::width() + C::width() + D::width());
        let r5 = self.4.update_batch_from_bind(p4, batch_size, params);
        let p5 = match r5 {
            Ok(p) => p,
            Err(e) => {
                proof {
                    let cur = *self;
                    assert(s0.0.update_ok(cur.0, p0, batch_size, params@, r1));
                    assert(s0.1.update_ok(cur.1, p1, batch_size, params@, r2));
                    assert(s0.2.update_ok(cur.2, p2, batch_size, params@, r3));
                    assert(s0.3.update_ok(cur.3, p3, batch_size, params@, r4));
                    assert(s0.4.update_ok(cur.4, p4, batch_size, params@, r5));
                    assert(s0.update_ok(cur, pos, batch_size, params@, r5));
                }
                return Err(e);
            },
        };
        assert(p5 <= m + A::width() + B::width() + C::width() + D::width() + E::width());
        let r6 = self.5.update_batch_from_bind(p5, batch_size, params);
        proof {
                let cur = *self;
                assert(s0.0.update_ok(cur.0, p0, batch_size, params@, r1));
                assert(s0.1.update_ok(cur.1, p1, batch_size, params@, r2));
                assert(s0.2.update_ok(cur.2, p2, batch_size, params@, r3));
                assert(s0.3.update_ok(cur.3, p3, batch_size, params@, r4));
                assert(s0.4.update_ok(cur.4, p4, batch_size, params@, r5));
                assert(s0.5.update_ok(cur.5, p5, batch_size, params@, r6));
            assert(s0.update_ok(cur, pos, batch_size, params@, r6));
        }
        r6
    }
}

impl<A: ToBatchSql, B: ToBatchSql, C: ToBatchSql, D: ToBatchSql, E: ToBatchSql, F: ToBatchSql, G: ToBatchSql> ToBatchSql for (A, B, C, D, E, F, G) {
    open spec fn width() -> nat {
        A::width() + B::width() + C::width() + D::width() + E::width() + F::width() + G::width()
    }

    proof fn lemma_width() {
        A::lemma_width();
    }

    open spec fn bind_ok(&self, pos: usize, pre: BatchParamsView, post: BatchParamsView, r: Result<usize, BatchError>) -> bool {
        exists|m1: BatchParamsView, q1: Result<usize, BatchError>|
            #[trigger] self.0.bind_ok(pos, pre, m1, q1) && match q1 {
                Err(_) => post == m1 && r == q1,
                Ok(p1) => exists|m2: BatchParamsView, q2: Result<usize, BatchError>|
                    #[trigger] self.1.bind_ok(p1, m1, m2, q2) && match q2 {
                        Err(_) => post == m2 && r == q2,
                        Ok(p2) => exists|m3: BatchParamsView, q3: Result<usize, BatchError>|
                            #[trigger] self.2.bind_ok(p2, m2, m3, q3) && match q3 {
                                Err(_) => post == m3 && r == q3,
                                Ok(p3) => exists|m4: BatchParamsView, q4: Result<usize, BatchError>|
                                    #[trigger] self.3.bind_ok(p3, m3, m4, q4) && match q4 {
                                        Err(_) => post == m4 && r == q4,
                                        Ok(p4) => exists|m5: BatchParamsView, q5: Result<usize, BatchError>|
                                            #[trigger] self.4.bind_ok(p4, m4, m5, q5) && match q5 {
                                                Err(_) => post == m5 && r == q5,
                                                Ok(p5) => exists|m6: BatchParamsView, q6: Result<usize, BatchError>|
                                                    #[trigger] self.5.bind_ok(p5, m5, m6, q6) && match q6 {
                                                        Err(_) => post == m6 && r == q6,
                                                        Ok(p6) => self.6.bind_ok(p6, m6, post, r),
                                                    },
                                            },
                                    },
                            },
                    },
            }
    }

    open spec fn update_ok(&self, after: Self, pos: usize, batch_size: usize, params: BatchParamsView, r: Result<usize, BatchError>) -> bool {
        exists|q1: Result<usize, BatchError>|
            #[trigger] self.0.update_ok(after.0, pos, batch_size, params, q1) && match q1 {
                Err(_) => after.1 == self.1 && after.2 == self.2 && after.3 == self.3 && after.4 == self.4 && after.5 == self.5 && after.6 == self.6 && r == q1,
                Ok(p1) => exists|q2: Result<usize, BatchError>|
                    #[trigger] self.1.update_ok(after.1, p1, batch_size, params, q2) && match q2 {
                        Err(_) => after.2 == self.2 && after.3 == self.3 && after.4 == self.4 && after.5 == self.5 && after.6 == self.6 && r == q2,
                        Ok(p2) => exists|q3: Result<usize, BatchError>|
                            #[trigger] self.2.update_ok(after.2, p2, batch_size, params, q3) && match q3 {
                                Err(_) => after.3 == self.3 && after.4 == self.4 && after.5 == self.5 && after.6 == self.6 && r == q3,
                                Ok(p3) => exists|q4: Result<usize, BatchError>|
                                    #[trigger] self.3.update_ok(after.3, p3, batch_size, params, q4) && match q4 {
                                        Err(_) => after.4 == self.4 && after.5 == self.5 && after.6 == self.6 && r == q4,
                                        Ok(p4) => exists|q5: Result<usize, BatchError>|
                                            #[trigger] self.4.update_ok(after.4, p4, batch_size, params, q5) && match q5 {
                                                Err(_) => after.5 == self.5 && after.6 == self.6 && r == q5,
                                                Ok(p5) => exists|q6: Result<usize, BatchError>|
                                                    #[trigger] self.5.update_ok(after.5, p5, batch_size, params, q6) && match q6 {
                                                        Err(_) => after.6 == self.6 && r == q6,
                                                        Ok(p6) => self.6.update_ok(after.6, p6, batch_size, params, r),
                                                    },
                                            },
                                    },
                            },
                    },
            }
    }

    /// Binds the arguments one after the other, each from the position the
    /// one before it gives back; the first refusal ends it.
    fn bind_batch_to(&mut self, pos: usize, batch_size: usize, params: &mut BatchParams) -> (r: Result<usize, BatchError>) {
        let ghost s0 = *self;
        let ghost v0 = params@;
        let ghost c = v0.count();
        let ghost m = if pos >= c { pos as nat } else { c };
        proof {
            assert(next_bound(pos, c, Self::width()) == m + Self::width());
        }
        let p0 = pos;
        let r1 = self.0.bind_batch_to(p0, batch_size, params);
        let ghost v1 = params@;
        let p1 = match r1 {
            Ok(p) => p,
            Err(e) => {
                proof {
                    assert(s0.0.bind_ok(p0, v0, v1, r1));
                    assert(s0.bind_ok(pos, v0, v1, r1));
                }
                return Err(e);
            },
        };
        assert(v1.count() == c && p1 <= m + A::width());
        let r2 = self.1.bind_batch_to(p1, batch_size, params);
        let ghost v2 = params@;
        let p2 = match r2 {
            Ok(p) => p,
            Err(e) => {
                proof {
                    assert(s0.0.bind_ok(p0, v0, v1, r1));
                    assert(s0.1.bind_ok(p1, v1, v2, r2));
                    assert(s0.bind_ok(pos, v0, v2, r2));
                }
                return Err(e);
            },
        };
        assert(v2.count() == c && p2 <= m + A::width() + B::width());
        let r3 = self.2.bind_batch_to(p2, batch_size, params);
        let ghost v3 = params@;
        let p3 = match r3 {
            Ok(p) => p,
            Err(e) => {
                proof {
                    assert(s0.0.bind_ok(p0, v0, v1, r1));
                    assert(s0.1.bind_ok(p1, v1, v2, r2));
                    assert(s0.2.bind_ok(p2, v2, v3, r3));
                    assert(s0.bind_ok(pos, v0, v3, r3));
                }
                return Err(e);
            },
        };
        assert(v3.count() == c && p3 <= m + A::width() + B::width() + C::width());
        let r4 = self.3.bind_batch_to(p3, batch_size, params);
        let ghost v4 = params@;
        let p4 = match r4 {
            Ok(p) => p,
            Err(e) => {
                proof {
                    assert(s0.0.bind_ok(p0, v0, v1, r1));
                    assert(s0.1.bind_ok(p1, v1, v2, r2));
                    assert(s0.2.bind_ok(p2, v2, v3, r3));
                    assert(s0.3.bind_ok(p3, v3, v4, r4));
                    assert(s0.bind_ok(pos, v0, v4, r4));
                }
                return Err(e);
            },
        };
        assert(v4.count() == c && p4 <= m + A::width() + B::width() + C::width() + D::width());
        let r5 = self.4.bind_batch_to(p4, batch_size, params);
        let ghost v5 = params@;
        let p5 = match r5 {
            Ok(p) => p,
            Err(e) => {
                proof {
                    assert(s0.0.bind_ok(p0, v0, v1, r1));
                    assert(s0.1.bind_ok(p1, v1, v2, r2));
                    assert(s0.2.bind_ok(p2, v2, v3, r3));
                    assert(s0.3.bind_ok(p3, v3, v4, r4));
                    assert(s0.4.bind_ok(p4, v4, v5, r5));
                    assert(s0.bind_ok(pos, v0, v5, r5));
                }
                return Err(e);
            },
        };
        assert(v5.count() == c && p5 <= m + A::width() + B::width() + C::width() + D::width() + E::width());
        let r6 = self.5.bind_batch_to(p5, batch_size, params);
        let ghost v6 = params@;
        let p6 = match r6 {
            Ok(p) => p,
            Err(e) => {
                proof {
                    assert(s0.0.bind_ok(p0, v0, v1, r1));
                    assert(s0.1.bind_ok(p1, v1, v2, r2));
                    assert(s0.2.bind_ok(p2, v2, v3, r3));
                    assert(s0.3.bind_ok(p3, v3, v4, r4));
                    assert(s0.4.bind_ok(p4, v4, v5, r5));
                    assert(s0.5.bind_ok(p5, v5, v6, r6));
                    assert(s0.bind_ok(pos, v0, v6, r6));
                }
                return Err(e);
            },
        };
        assert(v6.count() == c && p6 <= m + A::width() + B::width() + C::width() + D::width() + E::width() + F::width());
        let r7 = self.6.bind_batch_to(p6, batch_size, params);
        let ghost v7 = params@;
        proof {
            assert(s0.0.bind_ok(p0, v0, v1, r1));
            assert(s0.1.bind_ok(p1, v1, v2, r2));
            assert(s0.2.bind_ok(p2, v2, v3, r3));
            assert(s0.3.bind_ok(p3, v3, v4, r4));
            assert(s0.4.bind_ok(p4, v4, v5, r5));
            assert(s0.5.bind_ok(p5, v5, v6, r6));
            assert(s0.6.bind_ok(p6, v6, v7, r7));
            assert(s0.bind_ok(pos, v0, v7, r7));
        }
        r7
    }

    /// Updates the arguments one after the other; the first refusal ends it.
    fn update_batch_from_bind(&mut self, pos: usize, batch_size: usize, params: &BatchParams) -> (r: Result<usize, BatchError>) {
        let ghost s0 = *self;
        let ghost c = params@.count();
        let ghost m = if pos >= c { pos as nat } else { c };
        proof {
            assert(next_bound(pos, c, Self::width()) == m + Self::width());
        }
        let p0 = pos;
        let r1 = self.0.update_batch_from_bind(p0, batch_size, params);
        let p1 = match r1 {
            Ok(p) => p,
            Err(e) => {
                proof {
                    let cur = *self;
                    assert(s0.0.update_ok(cur.0, p0, batch_size, params@, r1));
                    assert(s0.update_ok(cur, pos, batch_size, params@, r1));
                }
                return Err(e);
            },
        };
        assert(p1 <= m + A::width());
        let r2 = self.1.update_batch_from_bind(p1, batch_size, params);
        let p2 = match r2 {
            Ok(p) => p,
            Err(e) => {
                proof {
                    let cur = *self;
                    assert(s0.0.update_ok(cur.0, p0, batch_size, params@, r1));
                    assert(s0.1.update_ok(cur.1, p1, batch_size, params@, r2));
                    assert(s0.update_ok(cur, pos, batch_size, params@, r2));
                }
                return Err(e);
            },
        };
        assert(p2 <= m + A::width() + B::width());
        let r3 = self.2.update_batch_from_bind(p2, batch_size, params);
        let p3 = match r3 {
            Ok(p) => p,
            Err(e) => {
                proof {
                    let cur = *self;
                    assert(s0.0.update_ok(cur.0, p0, batch_size, params@, r1));
                    assert(s0.1.update_ok(cur.1, p1, batch_size, params@, r2));
                    assert(s0.2.update_ok(cur.2, p2, batch_size, params@, r3));
                    assert(s0.update_ok(cur, pos, batch_size, params@, r3));
                }
                return Err(e);
            },
        };
        assert(p3 <= m + A::width() + B::width() + C::width());
        let r4 = self.3.update_batch_from_bind(p3, batch_size, params);
        let p4 = match r4 {
            Ok(p) => p,
            Err(e) => {
                proof {
                    let cur = *self;
                    assert(s0.0.update_ok(cur.0, p0, batch_size, params@, r1));
                    assert(s0.1.update_ok(cur.1, p1, batch_size, params@, r2));
                    assert(s0.2.update_ok(cur.2, p2, batch_size, params@, r3));
                    assert(s0.3.update_ok(cur.3, p3, batch_size, params@, r4));
                    assert(s0.update_ok(cur, pos, batch_size, params@, r4));
                }
                return Err(e);
            },
        };
        assert(p4 <= m + A::width() + B::width() + C::width() + D::width());
        let r5 = self.4.update_batch_from_bind(p4, batch_size, params);
        let p5 = match r5 {
            Ok(p) => p,
            Err(e) => {
                proof {
                    let cur = *self;
                    assert(s0.0.update_ok(cur.0, p0, batch_size, params@, r1));
                    assert(s0.1.update_ok(cur.1, p1, batch_size, params@, r2));
                    assert(s0.2.update_ok(cur.2, p2, batch_size, params@, r3));
                    assert(s0.3.update_ok(cur.3, p3, batch_size, params@, r4));
                    assert(s0.4.update_ok(cur.4, p4, batch_size, params@, r5));
                    assert(s0.update_ok(cur, pos, batch_size, params@, r5));
                }
                return Err(e);
            },
        };
        assert(p5 <= m + A::width() + B::width() + C::width() + D::width() + E::width());
        let r6 = self.5.update_batch_from_bind(p5, batch_size, params);
        let p6 = match r6 {
            Ok(p) => p,
            Err(e) => {
                proof {
                    let cur = *self;
                    assert(s0.0.update_ok(cur.0, p0, batch_size, params@, r1));
                    assert(s0.1.update_ok(cur.1, p1, batch_size, params@, r2));
                    assert(s0.2.update_ok(cur.2, p2, batch_size, params@, r3));
                    assert(s0.3.update_ok(cur.3, p3, batch_size, params@, r4));
                    assert(s0.4.update_ok(cur.4, p4, batch_size, params@, r5));
                    assert(s0.5.update_ok(cur.5, p5, batch_size, params@, r6));
                    assert(s0.update_ok(cur, pos, batch_size, params@, r6));
                }
                return Err(e);
            },
        };
        assert(p6 <= m + A::width() + B::width() + C::width() + D::width() + E::width() + F::width());
        let r7 = self.6.update_batch_from_bind(p6, batch_size, params);
        proof {
                let cur = *self;
                assert(s0.0.update_ok(cur.0, p0, batch_size, params@, r1));
                assert(s0.1.update_ok(cur.1, p1, batch_size, params@, r2));
                assert(s0.2.update_ok(cur.2, p2, batch_size, params@, r3));
                assert(s0.3.update_ok(cur.3, p3, batch_size, params@, r4));
                assert(s0.4.update_ok(cur.4, p4, batch_size, params@, r5));
                assert(s0.5.update_ok(cur.5, p5, batch_size, params@, r6));
                assert(s0.6.update_ok(cur.6, p6, batch_size, params@, r7));
            assert(s0.update_ok(cur, pos, batch_size, params@, r7));
        }
        r7
    }
}

impl<A: ToBatchSql, B: ToBatchSql, C: ToBatchSql, D: ToBatchSql, E: ToBatchSql, F: ToBatchSql, G: ToBatchSql, H: ToBatchSql> ToBatchSql for (A, B, C, D, E, F, G, H) {
    open spec fn width() -> nat {
        A::width() + B::width() + C::width() + D::width() + E::width() + F::width() + G::width() + H::width()
    }

    proof fn lemma_width() {
        A::lemma_width();
    }

    open spec fn bind_ok(&self, pos: usize, pre: BatchParamsView, post: BatchParamsView, r: Result<usize, BatchError>) -> bool {
        exists|m1: BatchParamsView, q1: Result<usize, BatchError>|
            #[trigger] self.0.bind_ok(pos, pre, m1, q1) && match q1 {
                Err(_) => post == m1 && r == q1,
                Ok(p1) => exists|m2: BatchParamsView, q2: Result<usize, BatchError>|
                    #[trigger] self.1.bind_ok(p1, m1, m2, q2) && match q2 {
                        Err(_) => post == m2 && r == q2,
                        Ok(p2) => exists|m3: BatchParamsView, q3: Result<usize, BatchError>|
                            #[trigger] self.2.bind_ok(p2, m2, m3, q3) && match q3 {
                                Err(_) => post == m3 && r == q3,
                                Ok(p3) => exists|m4: BatchParamsView, q4: Result<usize, BatchError>|
                                    #[trigger] self.3.bind_ok(p3, m3, m4, q4) && match q4 {
                                        Err(_) => post == m4 && r == q4,
                                        Ok(p4) => exists|m5: BatchParamsView, q5: Result<usize, BatchError>|
                                            #[trigger] self.4.bind_ok(p4, m4, m5, q5) && match q5 {
                                                Err(_) => post == m5 && r == q5,
                                                Ok(p5) => exists|m6: BatchParamsView, q6: Result<usize, BatchError>|
                                                    #[trigger] self.5.bind_ok(p5, m5, m6, q6) && match q6 {
                                                        Err(_) => post == m6 && r == q6,
                                                        Ok(p6) => exists|m7: BatchParamsView, q7: Result<usize, BatchError>|
                                                            #[trigger] self.6.bind_ok(p6, m6, m7, q7) && match q7 {
                                                                Err(_) => post == m7 && r == q7,
                                                                Ok(p7) => self.7.bind_ok(p7, m7, post, r),
                                                            },
                                                    },
                                            },
                                    },
                            },
                    },
            }
    }

    open spec fn update_ok(&self, after: Self, pos: usize, batch_size: usize, params: BatchParamsView, r: Result<usize, BatchError>) -> bool {
        exists|q1: Result<usize, BatchError>|
            #[trigger] self.0.update_ok(after.0, pos, batch_size, params, q1) && match q1 {
                Err(_) => after.1 == self.1 && after.2 == self.2 && after.3 == self.3 && after.4 == self.4 && after.5 == self.5 && after.6 == self.6 && after.7 == self.7 && r == q1,
                Ok(p1) => exists|q2: Result<usize, BatchError>|
                    #[trigger] self.1.update_ok(after.1, p1, batch_size, params, q2) && match q2 {
                        Err(_) => after.2 == self.2 && after.3 == self.3 && after.4 == self.4 && after.5 == self.5 && after.6 == self.6 && after.7 == self.7 && r == q2,
                        Ok(p2) => exists|q3: Result<usize, BatchError>|
                            #[trigger] self.2.update_ok(after.2, p2, batch_size, params, q3) && match q3 {
                                Err(_) => after.3 == self.3 && after.4 == self.4 && after.5 == self.5 && after.6 == self.6 && after.7 == self.7 && r == q3,
                                Ok(p3) => exists|q4: Result<usize, BatchError>|
                                    #[trigger] self.3.update_ok(after.3, p3, batch_size, params, q4) && match q4 {
                                        Err(_) => after.4 == self.4 && after.5 == self.5 && after.6 == self.6 && after.7 == self.7 && r == q4,
                                        Ok(p4) => exists|q5: Result<usize, BatchError>|
                                            #[trigger] self.4.update_ok(after.4, p4, batch_size, params, q5) && match q5 {
                                                Err(_) => after.5 == self.5 && after.6 == self.6 && after.7 == self.7 && r == q5,
                                                Ok(p5) => exists|q6: Result<usize, BatchError>|
                                                    #[trigger] self.5.update_ok(after.5, p5, batch_size, params, q6) && match q6 {
                                                        Err(_) => after.6 == self.6 && after.7 == self.7 && r == q6,
                                                        Ok(p6) => exists|q7: Result<usize, BatchError>|
                                                            #[trigger] self.6.update_ok(after.6, p6, batch_size, params, q7) && match q7 {
                                                                Err(_) => after.7 == self.7 && r == q7,
                                                                Ok(p7) => self.7.update_ok(after.7, p7, batch_size, params, r),
                                                            },
                                                    },
                                            },
                                    },
                            },
                    },
            }
    }

    /// Binds the arguments one after the other, each from the position the
    /// one before it gives back; the first refusal ends it.
    fn bind_batch_to(&mut self, pos: usize, batch_size: usize, params: &mut BatchParams) -> (r: Result<usize, BatchError>) {
        let ghost s0 = *self;
        let ghost v0 = params@;
        let ghost c = v0.count();
        let ghost m = if pos >= c { pos as nat } else { c };
        proof {
            assert(next_bound(pos, c, Self::width()) == m + Self::width());
        }
        let p0 = pos;
        let r1 = self.0.bind_batch_to(p0, batch_size, params);
        let ghost v1 = params@;
        let p1 = match r1 {
            Ok(p) => p,
            Err(e) => {
                proof {
                    assert(s0.0.bind_ok(p0, v0, v1, r1));
                    assert(s0.bind_ok(pos, v0, v1, r1));
                }
                return Err(e);
            },
        };
        assert(v1.count() == c && p1 <= m + A::width());
        let r2 = self.1.bind_batch_to(p1, batch_size, params);
        let ghost v2 = params@;
        let p2 = match r2 {
            Ok(p) => p,
            Err(e) => {
                proof {
                    assert(s0.0.bind_ok(p0, v0, v1, r1));
                    assert(s0.1.bind_ok(p1, v1, v2, r2));
                    assert(s0.bind_ok(pos, v0, v2, r2));
                }
                return Err(e);
            },
        };
        assert(v2.count() == c && p2 <= m + A::width() + B::width());
        let r3 = self.2.bind_batch_to(p2, batch_size, params);
        let ghost v3 = params@;
        let p3 = match r3 {
            Ok(p) => p,
            Err(e) => {
                proof {
                    assert(s0.0.bind_ok(p0, v0, v1, r1));
                    assert(s0.1.bind_ok(p1, v1, v2, r2));
                    assert(s0.2.bind_ok(p2, v2, v3, r3));
                    assert(s0.bind_ok(pos, v0, v3, r3));
                }
                return Err(e);
            },
        };
        assert(v3.count() == c && p3 <= m + A::width() + B::width() + C::width());
        let r4 = self.3.bind_batch_to(p3, batch_size, params);
        let ghost v4 = params@;
        let p4 = match r4 {
            Ok(p) => p,
            Err(e) => {
                proof {
                    assert(s0.0.bind_ok(p0, v0, v1, r1));
                    assert(s0.1.bind_ok(p1, v1, v2, r2));
                    assert(s0.2.bind_ok(p2, v2, v3, r3));
                    assert(s0.3.bind_ok(p3, v3, v4, r4));
                    assert(s0.bind_ok(pos, v0, v4, r4));
                }
                return Err(e);
            },
        };
        assert(v4.count() == c && p4 <= m + A::width() + B::width() + C::width() + D::width());
        let r5 = self.4.bind_batch_to(p4, batch_size, params);
        let ghost v5 = params@;
        let p5 = match r5 {
            Ok(p) => p,
            Err(e) => {
                proof {
                    assert(s0.0.bind_ok(p0, v0, v1, r1));
                    assert(s0.1.bind_ok(p1, v1, v2, r2));
                    assert(s0.2.bind_ok(p2, v2, v3, r3));
                    assert(s0.3.bind_ok(p3, v3, v4, r4));
                    assert(s0.4.bind_ok(p4, v4, v5, r5));
                    assert(s0.bind_ok(pos, v0, v5, r5));
                }
                return Err(e);
            },
        };
        assert(v5.count() == c && p5 <= m + A::width() + B::width() + C::width() + D::width() + E::width());
        let r6 = self.5.bind_batch_to(p5, batch_size, params);
        let ghost v6 = params@;
        let p6 = match r6 {
            Ok(p) => p,
            Err(e) => {
                proof {
                    assert(s0.0.bind_ok(p0, v0, v1, r1));
                    assert(s0.1.bind_ok(p1, v1, v2, r2));
                    assert(s0.2.bind_ok(p2, v2, v3, r3));
                    assert(s0.3.bind_ok(p3, v3, v4, r4));
                    assert(s0.4.bind_ok(p4, v4, v5, r5));
                    assert(s0.5.bind_ok(p5, v5, v6, r6));
                    assert(s0.bind_ok(pos, v0, v6, r6));
                }
                return Err(e);
            },
        };
        assert(v6.count() == c && p6 <= m + A::width() + B::width() + C::width() + D::width() + E::width() + F::width());
        let r7 = self.6.bind_batch_to(p6, batch_size, params);
        let ghost v7 = params@;
        let p7 = match r7 {
            Ok(p) => p,
            Err(e) => {
                proof {
                    assert(s0.0.bind_ok(p0, v0, v1, r1));
                    assert(s0.1.bind_ok(p1, v1, v2, r2));
                    assert(s0.2.bind_ok(p2, v2, v3, r3));
                    assert(s0.3.bind_ok(p3, v3, v4, r4));
                    assert(s0.4.bind_ok(p4, v4, v5, r5));
                    assert(s0.5.bind_ok(p5, v5, v6, r6));
                    assert(s0.6.bind_ok(p6, v6, v7, r7));
                    assert(s0.bind_ok(pos, v0, v7, r7));
                }
                return Err(e);
            },
        };
        assert(v7.count() == c && p7 <= m + A::width() + B::width() + C::width() + D::width() + E::width() + F::width() + G::width());
        let r8 = self.7.bind_batch_to(p7, batch_size, params);
        let ghost v8 = params@;
        proof {
            assert(s0.0.bind_ok(p0, v0, v1, r1));
            assert(s0.1.bind_ok(p1, v1, v2, r2));
            assert(s0.2.bind_ok(p2, v2, v3, r3));
            assert(s0.3.bind_ok(p3, v3, v4, r4));
            assert(s0.4.bind_ok(p4, v4, v5, r5));
            assert(s0.5.bind_ok(p5, v5, v6, r6));
            assert(s0.6.bind_ok(p6, v6, v7, r7));
            assert(s0.7.bind_ok(p7, v7, v8, r8));
            assert(s0.bind_ok(pos, v0, v8, r8));
        }
        r8
    }

    /// Updates the arguments one after the other; the first refusal ends it.
    fn update_batch_from_bind(&mut self, pos: usize, batch_size: usize, params: &BatchParams) -> (r: Result<usize, BatchError>) {
        let ghost s0 = *self;
        let ghost c = params@.count();
        let ghost m = if pos >= c { pos as nat } else { c };
        proof {
            assert(next_bound(pos, c, Self::width()) == m + Self::width());
        }
        let p0 = pos;
        let r1 = self.0.update_batch_from_bind(p0, batch_size, params);
        let p1 = match r1 {
            Ok(p) => p,
            Err(e) => {
                proof {
                    let cur = *self;
                    assert(s0.0.update_ok(cur.0, p0, batch_size, params@, r1));
                    assert(s0.update_ok(cur, pos, batch_size, params@, r1));
                }
                return Err(e);
            },
        };
        assert(p1 <= m + A::width());
        let r2 = self.1.update_batch_from_bind(p1, batch_size, params);
        let p2 = match r2 {
            Ok(p) => p,
            Err(e) => {
                proof {
                    let cur = *self;
                    assert(s0.0.update_ok(cur.0, p0, batch_size, params@, r1));
                    assert(s0.1.update_ok(cur.1, p1, batch_size, params@, r2));
                    assert(s0.update_ok(cur, pos, batch_size, params@, r2));
                }
                return Err(e);
            },
        };
        assert(p2 <= m + A::width() + B::width());
        let r3 = self.2.update_batch_from_bind(p2, batch_size, params);
        let p3 = match r3 {
            Ok(p) => p,
            Err(e) => {
                proof {
                    let cur = *self;
                    assert(s0.0.update_ok(cur.0, p0, batch_size, params@, r1));
                    assert(s0.1.update_ok(cur.1, p1, batch_size, params@, r2));
                    assert(s0.2.update_ok(cur.2, p2, batch_size, params@, r3));
                    assert(s0.update_ok(cur, pos, batch_size, params@, r3));
                }
                return Err(e);
            },
        };
        assert(p3 <= m + A::width() + B::width() + C::width());
        let r4 = self.3.update_batch_from_bind(p3, batch_size, params);
        let p4 = match r4 {
            Ok(p) => p,
            Err(e) => {
                proof {
                    let cur = *self;
                    assert(s0.0.update_ok(cur.0, p0, batch_size, params@, r1));
                    assert(s0.1.update_ok(cur.1, p1, batch_size, params@, r2));
                    assert(s0.2.update_ok(cur.2, p2, batch_size, params@, r3));
                    assert(s0.3.update_ok(cur.3, p3, batch_size, params@, r4));
                    assert(s0.update_ok(cur, pos, batch_size, params@, r4));
                }
                return Err(e);
            },
        };
        assert(p4 <= m + A::width() + B::width() + C::width() + D::width());
        let r5 = self.4.update_batch_from_bind(p4, batch_size, params);
        let p5 = match r5 {
            Ok(p) => p,
            Err(e) => {
                proof {
                    let cur = *self;
                    assert(s0.0.update_ok(cur.0, p0, batch_size, params@, r1));
                    assert(s0.1.update_ok(cur.1, p1, batch_size, params@, r2));
                    assert(s0.2.update_ok(cur.2, p2, batch_size, params@, r3));
                    assert(s0.3.update_ok(cur.3, p3, batch_size, params@, r4));
                    assert(s0.4.update_ok(cur.4, p4, batch_size, params@, r5));
                    assert(s0.update_ok(cur, pos, batch_size, params@, r5));
                }
                return Err(e);
            },
        };
        assert(p5 <= m + A::width() + B::width() + C::width() + D::width() + E::width());
        let r6 = self.5.update_batch_from_bind(p5, batch_size, params);
        let p6 = match r6 {
            Ok(p) => p,
            Err(e) => {
                proof {
                    let cur = *self;
                    assert(s0.0.update_ok(cur.0, p0, batch_size, params@, r1));
                    assert(s0.1.update_ok(cur.1, p1, batch_size, params@, r2));
                    assert(s0.2.update_ok(cur.2, p2, batch_size, params@, r3));
                    assert(s0.3.update_ok(cur.3, p3, batch_size, params@, r4));
                    assert(s0.4.update_ok(cur.4, p4, batch_size, params@, r5));
                    assert(s0.5.update_ok(cur.5, p5, batch_size, params@, r6));
                    assert(s0.update_ok(cur, pos, batch_size, params@, r6));
                }
                return Err(e);
            },
        };
        assert(p6 <= m + A::width() + B::width() + C::width() + D::width() + E::width() + F::width());
        let r7 = self.6.update_batch_from_bind(p6, batch_size, params);
        let p7 = match r7 {
            Ok(p) => p,
            Err(e) => {
                proof {
                    let cur = *self;
                    assert(s0.0.update_ok(cur.0, p0, batch_size, params@, r1));
                    assert(s0.1.update_ok(cur.1, p1, batch_size, params@, r2));
                    assert(s0.2.update_ok(cur.2, p2, batch_size, params@, r3));
                    assert(s0.3.update_ok(cur.3, p3, batch_size, params@, r4));
                    assert(s0.4.update_ok(cur.4, p4, batch_size, params@, r5));
                    assert(s0.5.update_ok(cur.5, p5, batch_size, params@, r6));
                    assert(s0.6.update_ok(cur.6, p6, batch_size, params@, r7));
                    assert(s0.update_ok(cur, pos, batch_size, params@, r7));
                }
                return Err(e);
            },
        };
        assert(p7 <= m + A::width() + B::width() + C::width() + D::width() + E::width() + F::width() + G::width());
        let r8 = self.7.update_batch_from_bind(p7, batch_size, params);
        proof {
                let cur = *self;
                assert(s0.0.update_ok(cur.0, p0, batch_size, params@, r1));
                assert(s0.1.update_ok(cur.1, p1, batch_size, params@, r2));
                assert(s0.2.update_ok(cur.2, p2, batch_size, params@, r3));
                assert(s0.3.update_ok(cur.3, p3, batch_size, params@, r4));
                assert(s0.4.update_ok(cur.4, p4, batch_size, params@, r5));
                assert(s0.5.update_ok(cur.5, p5, batch_size, params@, r6));
                assert(s0.6.update_ok(cur.6, p6, batch_size, params@, r7));
                assert(s0.7.update_ok(cur.7, p7, batch_size, params@, r8));
            assert(s0.update_ok(cur, pos, batch_size, params@, r8));
        }
        r8
    }
}

impl<A: ToBatchSql, B: ToBatchSql, C: ToBatchSql, D: ToBatchSql, E: ToBatchSql, F: ToBatchSql, G: ToBatchSql, H: ToBatchSql, I: ToBatchSql> ToBatchSql for (A, B, C, D, E, F, G, H, I) {
    open spec fn width() -> nat {
        A::width() + B::width() + C::width() + D::width() + E::width() + F::width() + G::width() + H::width() + I::width()
    }

    proof fn lemma_width() {
        A::lemma_width();
    }

    open spec fn bind_ok(&self, pos: usize, pre: BatchParamsView, post: BatchParamsView, r: Result<usize, BatchError>) -> bool {
        exists|m1: BatchParamsView, q1: Result<usize, BatchError>|
            #[trigger] self.0.bind_ok(pos, pre, m1, q1) && match q1 {
                Err(_) => post == m1 && r == q1,
                Ok(p1) => exists|m2: BatchParamsView, q2: Result<usize, BatchError>|
                    #[trigger] self.1.bind_ok(p1, m1, m2, q2) && match q2 {
                        Err(_) => post == m2 && r == q2,
                        Ok(p2) => exists|m3: BatchParamsView, q3: Result<usize, BatchError>|
                            #[trigger] self.2.bind_ok(p2, m2, m3, q3) && match q3 {
                                Err(_) => post == m3 && r == q3,
                                Ok(p3) => exists|m4: BatchParamsView, q4: Result<usize, BatchError>|
                                    #[trigger] self.3.bind_ok(p3, m3, m4, q4) && match q4 {
                                        Err(_) => post == m4 && r == q4,
                                        Ok(p4) => exists|m5: BatchParamsView, q5: Result<usize, BatchError>|
                                            #[trigger] self.4.bind_ok(p4, m4, m5, q5) && match q5 {
                                                Err(_) => post == m5 && r == q5,
                                                Ok(p5) => exists|m6: BatchParamsView, q6: Result<usize, BatchError>|
                                                    #[trigger] self.5.bind_ok(p5, m5, m6, q6) && match q6 {
                                                        Err(_) => post == m6 && r == q6,
                                                        Ok(p6) => exists|m7: BatchParamsView, q7: Result<usize, BatchError>|
                                                            #[trigger] self.6.bind_ok(p6, m6, m7, q7) && match q7 {
                                                                Err(_) => post == m7 && r == q7,
                                                                Ok(p7) => exists|m8: BatchParamsView, q8: Result<usize, BatchError>|
                                                                    #[trigger] self.7.bind_ok(p7, m7, m8, q8) && match q8 {
                                                                        Err(_) => post == m8 && r == q8,
                                                                        Ok(p8) => self.8.bind_ok(p8, m8, post, r),
                                                                    },
                                                            },
                                                    },
                                            },
                                    },
                            },
                    },
            }
    }

    open spec fn update_ok(&self, after: Self, pos: usize, batch_size: usize, params: BatchParamsView, r: Result<usize, BatchError>) -> bool {
        exists|q1: Result<usize, BatchError>|
            #[trigger] self.0.update_ok(after.0, pos, batch_size, params, q1) && match q1 {
                Err(_) => after.1 == self.1 && after.2 == self.2 && after.3 == self.3 && after.4 == self.4 && after.5 == self.5 && after.6 == self.6 && after.7 == self.7 && after.8 == self.8 && r == q1,
                Ok(p1) => exists|q2: Result<usize, BatchError>|
                    #[trigger] self.1.update_ok(after.1, p1, batch_size, params, q2) && match q2 {
                        Err(_) => after.2 == self.2 && after.3 == self.3 && after.4 == self.4 && after.5 == self.5 && after.6 == self.6 && after.7 == self.7 && after.8 == self.8 && r == q2,
                        Ok(p2) => exists|q3: Result<usize, BatchError>|
                            #[trigger] self.2.update_ok(after.2, p2, batch_size, params, q3) && match q3 {
                                Err(_) => after.3 == self.3 && after.4 == self.4 && after.5 == self.5 && after.6 == self.6 && after.7 == self.7 && after.8 == self.8 && r == q3,
                                Ok(p3) => exists|q4: Result<usize, BatchError>|
                                    #[trigger] self.3.update_ok(after.3, p3, batch_size, params, q4) && match q4 {
                                        Err(_) => after.4 == self.4 && after.5 == self.5 && after.6 == self.6 && after.7 == self.7 && after.8 == self.8 && r == q4,
                                        Ok(p4) => exists|q5: Result<usize, BatchError>|
                                            #[trigger] self.4.update_ok(after.4, p4, batch_size, params, q5) && match q5 {
                                                Err(_) => after.5 == self.5 && after.6 == self.6 && after.7 == self.7 && after.8 == self.8 && r == q5,
                                                Ok(p5) => exists|q6: Result<usize, BatchError>|
                                                    #[trigger] self.5.update_ok(after.5, p5, batch_size, params, q6) && match q6 {
                                                        Err(_) => after.6 == self.6 && after.7 == self.7 && after.8 == self.8 && r == q6,
                                                        Ok(p6) => exists|q7: Result<usize, BatchError>|
                                                            #[trigger] self.6.update_ok(after.6, p6, batch_size, params, q7) && match q7 {
                                                                Err(_) => after.7 == self.7 && after.8 == self.8 && r == q7,
                                                                Ok(p7) => exists|q8: Result<usize, BatchError>|
                                                                    #[trigger] self.7.update_ok(after.7, p7, batch_size, params, q8) && match q8 {
                                                                        Err(_) => after.8 == self.8 && r == q8,
                                                                        Ok(p8) => self.8.update_ok(after.8, p8, batch_size, params, r),
                                                                    },
                                                            },
                                                    },
                                            },
                                    },
                            },
                    },
            }
    }

    /// Binds the arguments one after the other, each from the position the
    /// one before it gives back; the first refusal ends it.
    fn bind_batch_to(&mut self, pos: usize, batch_size: usize, params: &mut BatchParams) -> (r: Result<usize, BatchError>) {
        let ghost s0 = *self;
        let ghost v0 = params@;
        let ghost c = v0.count();
        let ghost m = if pos >= c { pos as nat } else { c };
        proof {
            assert(next_bound(pos, c, Self::width()) == m + Self::width());
        }
        let p0 = pos;
        let r1 = self.0.bind_batch_to(p0, batch_size, params);
        let ghost v1 = params@;
        let p1 = match r1 {
            Ok(p) => p,
            Err(e) => {
                proof {
                    assert(s0.0.bind_ok(p0, v0, v1, r1));
                    assert(s0.bind_ok(pos, v0, v1, r1));
                }
                return Err(e);
            },
        };
        assert(v1.count() == c && p1 <= m + A::width());
        let r2 = self.1.bind_batch_to(p1, batch_size, params);
        let ghost v2 = params@;
        let p2 = match r2 {
            Ok(p) => p,
            Err(e) => {
                proof {
                    assert(s0.0.bind_ok(p0, v0, v1, r1));
                    assert(s0.1.bind_ok(p1, v1, v2, r2));
                    assert(s0.bind_ok(pos, v0, v2, r2));
                }
                return Err(e);
            },
        };
        assert(v2.count() == c && p2 <= m + A::width() + B::width());
        let r3 = self.2.bind_batch_to(p2, batch_size, params);
        let ghost v3 = params@;
        let p3 = match r3 {
            Ok(p) => p,
            Err(e) => {
                proof {
                    assert(s0.0.bind_ok(p0, v0, v1, r1));
                    assert(s0.1.bind_ok(p1, v1, v2, r2));
                    assert(s0.2.bind_ok(p2, v2, v3, r3));
                    assert(s0.bind_ok(pos, v0, v3, r3));
                }
                return Err(e);
            },
        };
        assert(v3.count() == c && p3 <= m + A::width() + B::width() + C::width());
        let r4 = self.3.bind_batch_to(p3, batch_size, params);
        let ghost v4 = params@;
        let p4 = match r4 {
            Ok(p) => p,
            Err(e) => {
                proof {
                    assert(s0.0.bind_ok(p0, v0, v1, r1));
                    assert(s0.1.bind_ok(p1, v1, v2, r2));
                    assert(s0.2.bind_ok(p2, v2, v3, r3));
                    assert(s0.3.bind_ok(p3, v3, v4, r4));
                    assert(s0.bind_ok(pos, v0, v4, r4));
                }
                return Err(e);
            },
        };
        assert(v4.count() == c && p4 <= m + A::width() + B::width() + C::width() + D::width());
        let r5 = self.4.bind_batch_to(p4, batch_size, params);
        let ghost v5 = params@;
        let p5 = match r5 {
            Ok(p) => p,
            Err(e) => {
                proof {
                    assert(s0.0.bind_ok(p0, v0, v1, r1));
                    assert(s0.1.bind_ok(p1, v1, v2, r2));
                    assert(s0.2.bind_ok(p2, v2, v3, r3));
                    assert(s0.3.bind_ok(p3, v3, v4, r4));
                    assert(s0.4.bind_ok(p4, v4, v5, r5));
                    assert(s0.bind_ok(pos, v0, v5, r5));
                }
                return Err(e);
            },
        };
        assert(v5.count() == c && p5 <= m + A::width() + B::width() + C::width() + D::width() + E::width());
        let r6 = self.5.bind_batch_to(p5, batch_size, params);
        let ghost v6 = params@;
        let p6 = match r6 {
            Ok(p) => p,
            Err(e) => {
                proof {
                    assert(s0.0.bind_ok(p0, v0, v1, r1));
                    assert(s0.1.bind_ok(p1, v1, v2, r2));
                    assert(s0.2.bind_ok(p2, v2, v3, r3));
                    assert(s0.3.bind_ok(p3, v3, v4, r4));
                    assert(s0.4.bind_ok(p4, v4, v5, r5));
                    assert(s0.5.bind_ok(p5, v5, v6, r6));
                    assert(s0.bind_ok(pos, v0, v6, r6));
                }
                return Err(e);
            },
        };
        assert(v6.count() == c && p6 <= m + A::width() + B::width() + C::width() + D::width() + E::width() + F::width());
        let r7 = self.6.bind_batch_to(p6, batch_size, params);
        let ghost v7 = params@;
        let p7 = match r7 {
            Ok(p) => p,
            Err(e) => {
                proof {
                    assert(s0.0.bind_ok(p0, v0, v1, r1));
                    assert(s0.1.bind_ok(p1, v1, v2, r2));
                    assert(s0.2.bind_ok(p2, v2, v3, r3));
                    assert(s0.3.bind_ok(p3, v3, v4, r4));
                    assert(s0.4.bind_ok(p4, v4, v5, r5));
                    assert(s0.5.bind_ok(p5, v5, v6, r6));
                    assert(s0.6.bind_ok(p6, v6, v7, r7));
                    assert(s0.bind_ok(pos, v0, v7, r7));
                }
                return Err(e);
            },
        };
        assert(v7.count() == c && p7 <= m + A::width() + B::width() + C::width() + D::width() + E::width() + F::width() + G::width());
        let r8 = self.7.bind_batch_to(p7, batch_size, params);
        let ghost v8 = params@;
        let p8 = match r8 {
            Ok(p) => p,
            Err(e) => {
                proof {
                    assert(s0.0.bind_ok(p0, v0, v1, r1));
                    assert(s0.1.bind_ok(p1, v1, v2, r2));
                    assert(s0.2.bind_ok(p2, v2, v3, r3));
                    assert(s0.3.bind_ok(p3, v3, v4, r4));
                    assert(s0.4.bind_ok(p4, v4, v5, r5));
                    assert(s0.5.bind_ok(p5, v5, v6, r6));
                    assert(s0.6.bind_ok(p6, v6, v7, r7));
                    assert(s0.7.bind_ok(p7, v7, v8, r8));
                    assert(s0.bind_ok(pos, v0, v8, r8));
                }
                return Err(e);
            },
        };
        assert(v8.count() == c && p8 <= m + A::width() + B::width() + C::width() + D::width() + E::width() + F::width() + G::width() + H::width());
        let r9 = self.8.bind_batch_to(p8, batch_size, params);
        let ghost v9 = params@;
        proof {
            assert(s0.0.bind_ok(p0, v0, v1, r1));
            assert(s0.1.bind_ok(p1, v1, v2, r2));
            assert(s0.2.bind_ok(p2, v2, v3, r3));
            assert(s0.3.bind_ok(p3, v3, v4, r4));
            assert(s0.4.bind_ok(p4, v4, v5, r5));
            assert(s0.5.bind_ok(p5, v5, v6, r6));
            assert(s0.6.bind_ok(p6, v6, v7, r7));
            assert(s0.7.bind_ok(p7, v7, v8, r8));
            assert(s0.8.bind_ok(p8, v8, v9, r9));
            assert(s0.bind_ok(pos, v0, v9, r9));
        }
        r9
    }

    /// Updates the arguments one after the other; the first refusal ends it.
    fn update_batch_from_bind(&mut self, pos: usize, batch_size: usize, params: &BatchParams) -> (r: Result<usize, BatchError>) {
        let ghost s0 = *self;
        let ghost c = params@.count();
        let ghost m = if pos >= c { pos as nat } else { c };
        proof {
            assert(next_bound(pos, c, Self::width()) == m + Self::width());
        }
        let p0 = pos;
        let r1 = self.0.update_batch_from_bind(p0, batch_size, params);
        let p1 = match r1 {
            Ok(p) => p,
            Err(e) => {
                proof {
                    let cur = *self;
                    assert(s0.0.update_ok(cur.0, p0, batch_size, params@, r1));
                    assert(s0.update_ok(cur, pos, batch_size, params@, r1));
                }
                return Err(e);
            },
        };
        assert(p1 <= m + A::width());
        let r2 = self.1.update_batch_from_bind(p1, batch_size, params);
        let p2 = match r2 {
            Ok(p) => p,
            Err(e) => {
                proof {
                    let cur = *self;
                    assert(s0.0.update_ok(cur.0, p0, batch_size, params@, r1));
                    assert(s0.1.update_ok(cur.1, p1, batch_size, params@, r2));
                    assert(s0.update_ok(cur, pos, batch_size, params@, r2));
                }
                return Err(e);
            },
        };
        assert(p2 <= m + A::width() + B::width());
        let r3 = self.2.update_batch_from_bind(p2, batch_size, params);
        let p3 = match r3 {
            Ok(p) => p,
            Err(e) => {
                proof {
                    let cur = *self;
                    assert(s0.0.update_ok(cur.0, p0, batch_size, params@, r1));
                    assert(s0.1.update_ok(cur.1, p1, batch_size, params@, r2));
                    assert(s0.2.update_ok(cur.2, p2, batch_size, params@, r3));
                    assert(s0.update_ok(cur, pos, batch_size, params@, r3));
                }
                return Err(e);
            },
        };
        assert(p3 <= m + A::width() + B::width() + C::width());
        let r4 = self.3.update_batch_from_bind(p3, batch_size, params);
        let p4 = match r4 {
            Ok(p) => p,
            Err(e) => {
                proof {
                    let cur = *self;
                    assert(s0.0.update_ok(cur.0, p0, batch_size, params@, r1));
                    assert(s0.1.update_ok(cur.1, p1, batch_size, params@, r2));
                    assert(s0.2.update_ok(cur.2, p2, batch_size, params@, r3));
                    assert(s0.3.update_ok(cur.3, p3, batch_size, params@, r4));
                    assert(s0.update_ok(cur, pos, batch_size, params@, r4));
                }
                return Err(e);
            },
        };
        assert(p4 <= m + A::width() + B::width() + C::width() + D::width());
        let r5 = self.4.update_batch_from_bind(p4, batch_size, params);
        let p5 = match r5 {
            Ok(p) => p,
            Err(e) => {
                proof {
                    let cur = *self;
                    assert(s0.0.update_ok(cur.0, p0, batch_size, params@, r1));
                    assert(s0.1.update_ok(cur.1, p1, batch_size, params@, r2));
                    assert(s0.2.update_ok(cur.2, p2, batch_size, params@, r3));
                    assert(s0.3.update_ok(cur.3, p3, batch_size, params@, r4));
                    assert(s0.4.update_ok(cur.4, p4, batch_size, params@, r5));
                    assert(s0.update_ok(cur, pos, batch_size, params@, r5));
                }
                return Err(e);
            },
        };
        assert(p5 <= m + A::width() + B::width() + C::width() + D::width() + E::width());
        let r6 = self.5.update_batch_from_bind(p5, batch_size, params);
        let p6 = match r6 {
            Ok(p) => p,
            Err(e) => {
                proof {
                    let cur = *self;
                    assert(s0.0.update_ok(cur.0, p0, batch_size, params@, r1));
                    assert(s0.1.update_ok(cur.1, p1, batch_size, params@, r2));
                    assert(s0.2.update_ok(cur.2, p2, batch_size, params@, r3));
                    assert(s0.3.update_ok(cur.3, p3, batch_size, params@, r4));
                    assert(s0.4.update_ok(cur.4, p4, batch_size, params@, r5));
                    assert(s0.5.update_ok(cur.5, p5, batch_size, params@, r6));
                    assert(s0.update_ok(cur, pos, batch_size, params@, r6));
                }
                return Err(e);
            },
        };
        assert(p6 <= m + A::width() + B::width() + C::width() + D::width() + E::width() + F::width());
        let r7 = self.6.update_batch_from_bind(p6, batch_size, params);
        let p7 = match r7 {
            Ok(p) => p,
            Err(e) => {
                proof {
                    let cur = *self;
                    assert(s0.0.update_ok(cur.0, p0, batch_size, params@, r1));
                    assert(s0.1.update_ok(cur.1, p1, batch_size, params@, r2));
                    assert(s0.2.update_ok(cur.2, p2, batch_size, params@, r3));
                    assert(s0.3.update_ok(cur.3, p3, batch_size, params@, r4));
                    assert(s0.4.update_ok(cur.4, p4, batch_size, params@, r5));
                    assert(s0.5.update_ok(cur.5, p5, batch_size, params@, r6));
                    assert(s0.6.update_ok(cur.6, p6, batch_size, params@, r7));
                    assert(s0.update_ok(cur, pos, batch_size, params@, r7));
                }
                return Err(e);
            },
        };
        assert(p7 <= m + A::width() + B::width() + C::width() + D::width() + E::width() + F::width() + G::width());
        let r8 = self.7.update_batch_from_bind(p7, batch_size, params);
        let p8 = match r8 {
            Ok(p) => p,
            Err(e) => {
                proof {
                    let cur = *self;
                    assert(s0.0.update_ok(cur.0, p0, batch_size, params@, r1));
                    assert(s0.1.update_ok(cur.1, p1, batch_size, params@, r2));
                    assert(s0.2.update_ok(cur.2, p2, batch_size, params@, r3));
                    assert(s0.3.update_ok(cur.3, p3, batch_size, params@, r4));
                    assert(s0.4.update_ok(cur.4, p4, batch_size, params@, r5));
                    assert(s0.5.update_ok(cur.5, p5, batch_size, params@, r6));
                    assert(s0.6.update_ok(cur.6, p6, batch_size, params@, r7));
                    assert(s0.7.update_ok(cur.7, p7, batch_size, params@, r8));
                    assert(s0.update_ok(cur, pos, batch_size, params@, r8));
                }
                return Err(e);
            },
        };
        assert(p8 <= m + A::width() + B::width() + C::width() + D::width() + E::width() + F::width() + G::width() + H::width());
        let r9 = self.8.update_batch_from_bind(p8, batch_size, params);
        proof {
                let cur = *self;
                assert(s0.0.update_ok(cur.0, p0, batch_size, params@, r1));
                assert(s0.1.update_ok(cur.1, p1, batch_size, params@, r2));
                assert(s0.2.update_ok(cur.2, p2, batch_size, params@, r3));
                assert(s0.3.update_ok(cur.3, p3, batch_size, params@, r4));
                assert(s0.4.update_ok(cur.4, p4, batch_size, params@, r5));
                assert(s0.5.update_ok(cur.5, p5, batch_size, params@, r6));
                assert(s0.6.update_ok(cur.6, p6, batch_size, params@, r7));
                assert(s0.7.update_ok(cur.7, p7, batch_size, params@, r8));
                assert(s0.8.update_ok(cur.8, p8, batch_size, params@, r9));
            assert(s0.update_ok(cur, pos, batch_size, params@, r9));
        }
        r9
    }
}

impl<A: ToBatchSql, B: ToBatchSql, C: ToBatchSql, D: ToBatchSql, E: ToBatchSql, F: ToBatchSql, G: ToBatchSql, H: ToBatchSql, I: ToBatchSql, J: ToBatchSql> ToBatchSql for (A, B, C, D, E, F, G, H, I, J) {
    open spec fn width() -> nat {
        A::width() + B::width() + C::width() + D::width() + E::width() + F::width() + G::width() + H::width() + I::width() + J::width()
    }

    proof fn lemma_width() {
        A::lemma_width();
    }

    open spec fn bind_ok(&self, pos: usize, pre: BatchParamsView, post: BatchParamsView, r: Result<usize, BatchError>) -> bool {
        exists|m1: BatchParamsView, q1: Result<usize, BatchError>|
            #[trigger] self.0.bind_ok(pos, pre, m1, q1) && match q1 {
                Err(_) => post == m1 && r == q1,
                Ok(p1) => exists|m2: BatchParamsView, q2: Result<usize, BatchError>|
                    #[trigger] self.1.bind_ok(p1, m1, m2, q2) && match q2 {
                        Err(_) => post == m2 && r == q2,
                        Ok(p2) => exists|m3: BatchParamsView, q3: Result<usize, BatchError>|
                            #[trigger] self.2.bind_ok(p2, m2, m3, q3) && match q3 {
                                Err(_) => post == m3 && r == q3,
                                Ok(p3) => exists|m4: BatchParamsView, q4: Result<usize, BatchError>|
                                    #[trigger] self.3.bind_ok(p3, m3, m4, q4) && match q4 {
                                        Err(_) => post == m4 && r == q4,
                                        Ok(p4) => exists|m5: BatchParamsView, q5: Result<usize, BatchError>|
                                            #[trigger] self.4.bind_ok(p4, m4, m5, q5) && match q5 {
                                                Err(_) => post == m5 && r == q5,
                                                Ok(p5) => exists|m6: BatchParamsView, q6: Result<usize, BatchError>|
                                                    #[trigger] self.5.bind_ok(p5, m5, m6, q6) && match q6 {
                                                        Err(_) => post == m6 && r == q6,
                                                        Ok(p6) => exists|m7: BatchParamsView, q7: Result<usize, BatchError>|
                                                            #[trigger] self.6.bind_ok(p6, m6, m7, q7) && match q7 {
                                                                Err(_) => post == m7 && r == q7,
                                                                Ok(p7) => exists|m8: BatchParamsView, q8: Result<usize, BatchError>|
                                                                    #[trigger] self.7.bind_ok(p7, m7, m8, q8) && match q8 {
                                                                        Err(_) => post == m8 && r == q8,
                                                                        Ok(p8) => exists|m9: BatchParamsView, q9: Result<usize, BatchError>|
                                                                            #[trigger] self.8.bind_ok(p8, m8, m9, q9) && match q9 {
                                                                                Err(_) => post == m9 && r == q9,
                                                                                Ok(p9) => self.9.bind_ok(p9, m9, post, r),
                                                                            },
                                                                    },
                                                            },
                                                    },
                                            },
                                    },
                            },
                    },
            }
    }

    open spec fn update_ok(&self, after: Self, pos: usize, batch_size: usize, params: BatchParamsView, r: Result<usize, BatchError>) -> bool {
        exists|q1: Result<usize, BatchError>|
            #[trigger] self.0.update_ok(after.0, pos, batch_size, params, q1) && match q1 {
                Err(_) => after.1 == self.1 && after.2 == self.2 && after.3 == self.3 && after.4 == self.4 && after.5 == self.5 && after.6 == self.6 && after.7 == self.7 && after.8 == self.8 && after.9 == self.9 && r == q1,
                Ok(p1) => exists|q2: Result<usize, BatchError>|
                    #[trigger] self.1.update_ok(after.1, p1, batch_size, params, q2) && match q2 {
                        Err(_) => after.2 == self.2 && after.3 == self.3 && after.4 == self.4 && after.5 == self.5 && after.6 == self.6 && after.7 == self.7 && after.8 == self.8 && after.9 == self.9 && r == q2,
                        Ok(p2) => exists|q3: Result<usize, BatchError>|
                            #[trigger] self.2.update_ok(after.2, p2, batch_size, params, q3) && match q3 {
                                Err(_) => after.3 == self.3 && after.4 == self.4 && after.5 == self.5 && after.6 == self.6 && after.7 == self.7 && after.8 == self.8 && after.9 == self.9 && r == q3,
                                Ok(p3) => exists|q4: Result<usize, BatchError>|
                                    #[trigger] self.3.update_ok(after.3, p3, batch_size, params, q4) && match q4 {
                                        Err(_) => after.4 == self.4 && after.5 == self.5 && after.6 == self.6 && after.7 == self.7 && after.8 == self.8 && after.9 == self.9 && r == q4,
                                        Ok(p4) => exists|q5: Result<usize, BatchError>|
                                            #[trigger] self.4.update_ok(after.4, p4, batch_size, params, q5) && match q5 {
                                                Err(_) => after.5 == self.5 && after.6 == self.6 && after.7 == self.7 && after.8 == self.8 && after.9 == self.9 && r == q5,
                                                Ok(p5) => exists|q6: Result<usize, BatchError>|
                                                    #[trigger] self.5.update_ok(after.5, p5, batch_size, params, q6) && match q6 {
                                                        Err(_) => after.6 == self.6 && after.7 == self.7 && after.8 == self.8 && after.9 == self.9 && r == q6,
                                                        Ok(p6) => exists|q7: Result<usize, BatchError>|
                                                            #[trigger] self.6.update_ok(after.6, p6, batch_size, params, q7) && match q7 {
                                                                Err(_) => after.7 == self.7 && after.8 == self.8 && after.9 == self.9 && r == q7,
                                                                Ok(p7) => exists|q8: Result<usize, BatchError>|
                                                                    #[trigger] self.7.update_ok(after.7, p7, batch_size, params, q8) && match q8 {
                                                                        Err(_) => after.8 == self.8 && after.9 == self.9 && r == q8,
                                                                        Ok(p8) => exists|q9: Result<usize, BatchError>|
                                                                            #[trigger] self.8.update_ok(after.8, p8, batch_size, params, q9) && match q9 {
                                                                                Err(_) => after.9 == self.9 && r == q9,
                                                                                Ok(p9) => self.9.update_ok(after.9, p9, batch_size, params, r),
                                                                            },
                                                                    },
                                                            },
                                                    },
                                            },
                                    },
                            },
                    },
            }
    }

    /// Binds the arguments one after the other, each from the position the
    /// one before it gives back; the first refusal ends it.
    fn bind_batch_to(&mut self, pos: usize, batch_size: usize, params: &mut BatchParams) -> (r: Result<usize, BatchError>) {
        let ghost s0 = *self;
        let ghost v0 = params@;
        let ghost c = v0.count();
        let ghost m = if pos >= c { pos as nat } else { c };
        proof {
            assert(next_bound(pos, c, Self::width()) == m + Self::width());
        }
        let p0 = pos;
        let r1 = self.0.bind_batch_to(p0, batch_size, params);
        let ghost v1 = params@;
        let p1 = match r1 {
            Ok(p) => p,
            Err(e) => {
                proof {
                    assert(s0.0.bind_ok(p0, v0, v1, r1));
                    assert(s0.bind_ok(pos, v0, v1, r1));
                }
                return Err(e);
            },
        };
        assert(v1.count() == c && p1 <= m + A::width());
        let r2 = self.1.bind_batch_to(p1, batch_size, params);
        let ghost v2 = params@;
        let p2 = match r2 {
            Ok(p) => p,
            Err(e) => {
                proof {
                    assert(s0.0.bind_ok(p0, v0, v1, r1));
                    assert(s0.1.bind_ok(p1, v1, v2, r2));
                    assert(s0.bind_ok(pos, v0, v2, r2));
                }
                return Err(e);
            },
        };
        assert(v2.count() == c && p2 <= m + A::width() + B::width());
        let r3 = self.2.bind_batch_to(p2, batch_size, params);
        let ghost v3 = params@;
        let p3 = match r3 {
            Ok(p) => p,
            Err(e) => {
                proof {
                    assert(s0.0.bind_ok(p0, v0, v1, r1));
                    assert(s0.1.bind_ok(p1, v1, v2, r2));
                    assert(s0.2.bind_ok(p2, v2, v3, r3));
                    assert(s0.bind_ok(pos, v0, v3, r3));
                }
                return Err(e);
            },
        };
        assert(v3.count() == c && p3 <= m + A::width() + B::width() + C::width());
        let r4 = self.3.bind_batch_to(p3, batch_size, params);
        let ghost v4 = params@;
        let p4 = match r4 {
            Ok(p) => p,
            Err(e) => {
                proof {
                    assert(s0.0.bind_ok(p0, v0, v1, r1));
                    assert(s0.1.bind_ok(p1, v1, v2, r2));
                    assert(s0.2.bind_ok(p2, v2, v3, r3));
                    assert(s0.3.bind_ok(p3, v3, v4, r4));
                    assert(s0.bind_ok(pos, v0, v4, r4));
                }
                return Err(e);
            },
        };
        assert(v4.count() == c && p4 <= m + A::width() + B::width() + C::width() + D::width());
        let r5 = self.4.bind_batch_to(p4, batch_size, params);
        let ghost v5 = params@;
        let p5 = match r5 {
            Ok(p) => p,
            Err(e) => {
                proof {
                    assert(s0.0.bind_ok(p0, v0, v1, r1));
                    assert(s0.1.bind_ok(p1, v1, v2, r2));
                    assert(s0.2.bind_ok(p2, v2, v3, r3));
                    assert(s0.3.bind_ok(p3, v3, v4, r4));
                    assert(s0.4.bind_ok(p4, v4, v5, r5));
                    assert(s0.bind_ok(pos, v0, v5, r5));
                }
                return Err(e);
            },
        };
        assert(v5.count() == c && p5 <= m + A::width() + B::width() + C::width() + D::width() + E::width());
        let r6 = self.5.bind_batch_to(p5, batch_size, params);
        let ghost v6 = params@;
        let p6 = match r6 {
            Ok(p) => p,
            Err(e) => {
                proof {
                    assert(s0.0.bind_ok(p0, v0, v1, r1));
                    assert(s0.1.bind_ok(p1, v1, v2, r2));
                    assert(s0.2.bind_ok(p2, v2, v3, r3));
                    assert(s0.3.bind_ok(p3, v3, v4, r4));
                    assert(s0.4.bind_ok(p4, v4, v5, r5));
                    assert(s0.5.bind_ok(p5, v5, v6, r6));
                    assert(s0.bind_ok(pos, v0, v6, r6));
                }
                return Err(e);
            },
        };
        assert(v6.count() == c && p6 <= m + A::width() + B::width() + C::width() + D::width() + E::width() + F::width());
        let r7 = self.6.bind_batch_to(p6, batch_size, params);
        let ghost v7 = params@;
        let p7 = match r7 {
            Ok(p) => p,
            Err(e) => {
                proof {
                    assert(s0.0.bind_ok(p0, v0, v1, r1));
                    assert(s0.1.bind_ok(p1, v1, v2, r2));
                    assert(s0.2.bind_ok(p2, v2, v3, r3));
                    assert(s0.3.bind_ok(p3, v3, v4, r4));
                    assert(s0.4.bind_ok(p4, v4, v5, r5));
                    assert(s0.5.bind_ok(p5, v5, v6, r6));
                    assert(s0.6.bind_ok(p6, v6, v7, r7));
                    assert(s0.bind_ok(pos, v0, v7, r7));
                }
                return Err(e);
            },
        };
        assert(v7.count() == c && p7 <= m + A::width() + B::width() + C::width() + D::width() + E::width() + F::width() + G::width());
        let r8 = self.7.bind_batch_to(p7, batch_size, params);
        let ghost v8 = params@;
        let p8 = match r8 {
            Ok(p) => p,
            Err(e) => {
                proof {
                    assert(s0.0.bind_ok(p0, v0, v1, r1));
                    assert(s0.1.bind_ok(p1, v1, v2, r2));
                    assert(s0.2.bind_ok(p2, v2, v3, r3));
                    assert(s0.3.bind_ok(p3, v3, v4, r4));
                    assert(s0.4.bind_ok(p4, v4, v5, r5));
                    assert(s0.5.bind_ok(p5, v5, v6, r6));
                    assert(s0.6.bind_ok(p6, v6, v7, r7));
                    assert(s0.7.bind_ok(p7, v7, v8, r8));
                    assert(s0.bind_ok(pos, v0, v8, r8));
                }
                return Err(e);
            },
        };
        assert(v8.count() == c && p8 <= m + A::width() + B::width() + C::width() + D::width() + E::width() + F::width() + G::width() + H::width());
        let r9 = self.8.bind_batch_to(p8, batch_size, params);
        let ghost v9 = params@;
        let p9 = match r9 {
            Ok(p) => p,
            Err(e) => {
                proof {
                    assert(s0.0.bind_ok(p0, v0, v1, r1));
                    assert(s0.1.bind_ok(p1, v1, v2, r2));
                    assert(s0.2.bind_ok(p2, v2, v3, r3));
                    assert(s0.3.bind_ok(p3, v3, v4, r4));
                    assert(s0.4.bind_ok(p4, v4, v5, r5));
                    assert(s0.5.bind_ok(p5, v5, v6, r6));
                    assert(s0.6.bind_ok(p6, v6, v7, r7));
                    assert(s0.7.bind_ok(p7, v7, v8, r8));
                    assert(s0.8.bind_ok(p8, v8, v9, r9));
                    assert(s0.bind_ok(pos, v0, v9, r9));
                }
                return Err(e);
            },
        };
        assert(v9.count() == c && p9 <= m + A::width() + B::width() + C::width() + D::width() + E::width() + F::width() + G::width() + H::width() + I::width());
        let r10 = self.9.bind_batch_to(p9, batch_size, params);
        let ghost v10 = params@;
        proof {
            assert(s0.0.bind_ok(p0, v0, v1, r1));
            assert(s0.1.bind_ok(p1, v1, v2, r2));
            assert(s0.2.bind_ok(p2, v2, v3, r3));
            assert(s0.3.bind_ok(p3, v3, v4, r4));
            assert(s0.4.bind_ok(p4, v4, v5, r5));
            assert(s0.5.bind_ok(p5, v5, v6, r6));
            assert(s0.6.bind_ok(p6, v6, v7, r7));
            assert(s0.7.bind_ok(p7, v7, v8, r8));
            assert(s0.8.bind_ok(p8, v8, v9, r9));
            assert(s0.9.bind_ok(p9, v9, v10, r10));
            assert(s0.bind_ok(pos, v0, v10, r10));
        }
        r10
    }

    /// Updates the arguments one after the other; the first refusal ends it.
    fn update_batch_from_bind(&mut self, pos: usize, batch_size: usize, params: &BatchParams) -> (r: Result<usize, BatchError>) {
        let ghost s0 = *self;
        let ghost c = params@.count();
        let ghost m = if pos >= c { pos as nat } else { c };
        proof {
            assert(next_bound(pos, c, Self::width()) == m + Self::width());
        }
        let p0 = pos;
        let r1 = self.0.update_batch_from_bind(p0, batch_size, params);
        let p1 = match r1 {
            Ok(p) => p,
            Err(e) => {
                proof {
                    let cur = *self;
                    assert(s0.0.update_ok(cur.0, p0, batch_size, params@, r1));
                    assert(s0.update_ok(cur, pos, batch_size, params@, r1));
                }
                return Err(e);
            },
        };
        assert(p1 <= m + A::width());
        let r2 = self.1.update_batch_from_bind(p1, batch_size, params);
        let p2 = match r2 {
            Ok(p) => p,
            Err(e) => {
                proof {
                    let cur = *self;
                    assert(s0.0.update_ok(cur.0, p0, batch_size, params@, r1));
                    assert(s0.1.update_ok(cur.1, p1, batch_size, params@, r2));
                    assert(s0.update_ok(cur, pos, batch_size, params@, r2));
                }
                return Err(e);
            },
        };
        assert(p2 <= m + A::width() + B::width());
        let r3 = self.2.update_batch_from_bind(p2, batch_size, params);
        let p3 = match r3 {
            Ok(p) => p,
            Err(e) => {
                proof {
                    let cur = *self;
                    assert(s0.0.update_ok(cur.0, p0, batch_size, params@, r1));
                    assert(s0.1.update_ok(cur.1, p1, batch_size, params@, r2));
                    assert(s0.2.update_ok(cur.2, p2, batch_size, params@, r3));
                    assert(s0.update_ok(cur, pos, batch_size, params@, r3));
                }
                return Err(e);
            },
        };
        assert(p3 <= m + A::width() + B::width() + C::width());
        let r4 = self.3.update_batch_from_bind(p3, batch_size, params);
        let p4 = match r4 {
            Ok(p) => p,
            Err(e) => {
                proof {
                    let cur = *self;
                    assert(s0.0.update_ok(cur.0, p0, batch_size, params@, r1));
                    assert(s0.1.update_ok(cur.1, p1, batch_size, params@, r2));
                    assert(s0.2.update_ok(cur.2, p2, batch_size, params@, r3));
                    assert(s0.3.update_ok(cur.3, p3, batch_size, params@, r4));
                    assert(s0.update_ok(cur, pos, batch_size, params@, r4));
                }
                return Err(e);
            },
        };
        assert(p4 <= m + A::width() + B::width() + C::width() + D::width());
        let r5 = self.4.update_batch_from_bind(p4, batch_size, params);
        let p5 = match r5 {
            Ok(p) => p,
            Err(e) => {
                proof {
                    let cur = *self;
                    assert(s0.0.update_ok(cur.0, p0, batch_size, params@, r1));
                    assert(s0.1.update_ok(cur.1, p1, batch_size, params@, r2));
                    assert(s0.2.update_ok(cur.2, p2, batch_size, params@, r3));
                    assert(s0.3.update_ok(cur.3, p3, batch_size, params@, r4));
                    assert(s0.4.update_ok(cur.4, p4, batch_size, params@, r5));
                    assert(s0.update_ok(cur, pos, batch_size, params@, r5));
                }
                return Err(e);
            },
        };
        assert(p5 <= m + A::width() + B::width() + C::width() + D::width() + E::width());
        let r6 = self.5.update_batch_from_bind(p5, batch_size, params);
        let p6 = match r6 {
            Ok(p) => p,
            Err(e) => {
                proof {
                    let cur = *self;
                    assert(s0.0.update_ok(cur.0, p0, batch_size, params@, r1));
                    assert(s0.1.update_ok(cur.1, p1, batch_size, params@, r2));
                    assert(s0.2.update_ok(cur.2, p2, batch_size, params@, r3));
                    assert(s0.3.update_ok(cur.3, p3, batch_size, params@, r4));
                    assert(s0.4.update_ok(cur.4, p4, batch_size, params@, r5));
                    assert(s0.5.update_ok(cur.5, p5, batch_size, params@, r6));
                    assert(s0.update_ok(cur, pos, batch_size, params@, r6));
                }
                return Err(e);
            },
        };
        assert(p6 <= m + A::width() + B::width() + C::width() + D::width() + E::width() + F::width());
        let r7 = self.6.update_batch_from_bind(p6, batch_size, params);
        let p7 = match r7 {
            Ok(p) => p,
            Err(e) => {
                proof {
                    let cur = *self;
                    assert(s0.0.update_ok(cur.0, p0, batch_size, params@, r1));
                    assert(s0.1.update_ok(cur.1, p1, batch_size, params@, r2));
                    assert(s0.2.update_ok(cur.2, p2, batch_size, params@, r3));
                    assert(s0.3.update_ok(cur.3, p3, batch_size, params@, r4));
                    assert(s0.4.update_ok(cur.4, p4, batch_size, params@, r5));
                    assert(s0.5.update_ok(cur.5, p5, batch_size, params@, r6));
                    assert(s0.6.update_ok(cur.6, p6, batch_size, params@, r7));
                    assert(s0.update_ok(cur, pos, batch_size, params@, r7));
                }
                return Err(e);
            },
        };
        assert(p7 <= m + A::width() + B::width() + C::width() + D::width() + E::width() + F::width() + G::width());
        let r8 = self.7.update_batch_from_bind(p7, batch_size, params);
        let p8 = match r8 {
            Ok(p) => p,
            Err(e) => {
                proof {
                    let cur = *self;
                    assert(s0.0.update_ok(cur.0, p0, batch_size, params@, r1));
                    assert(s0.1.update_ok(cur.1, p1, batch_size, params@, r2));
                    assert(s0.2.update_ok(cur.2, p2, batch_size, params@, r3));
                    assert(s0.3.update_ok(cur.3, p3, batch_size, params@, r4));
                    assert(s0.4.update_ok(cur.4, p4, batch_size, params@, r5));
                    assert(s0.5.update_ok(cur.5, p5, batch_size, params@, r6));
                    assert(s0.6.update_ok(cur.6, p6, batch_size, params@, r7));
                    assert(s0.7.update_ok(cur.7, p7, batch_size, params@, r8));
                    assert(s0.update_ok(cur, pos, batch_size, params@, r8));
                }
                return Err(e);
            },
        };
        assert(p8 <= m + A::width() + B::width() + C::width() + D::width() + E::width() + F::width() + G::width() + H::width());
        let r9 = self.8.update_batch_from_bind(p8, batch_size, params);
        let p9 = match r9 {
            Ok(p) => p,
            Err(e) => {
                proof {
                    let cur = *self;
                    assert(s0.0.update_ok(cur.0, p0, batch_size, params@, r1));
                    assert(s0.1.update_ok(cur.1, p1, batch_size, params@, r2));
                    assert(s0.2.update_ok(cur.2, p2, batch_size, params@, r3));
                    assert(s0.3.update_ok(cur.3, p3, batch_size, params@, r4));
                    assert(s0.4.update_ok(cur.4, p4, batch_size, params@, r5));
                    assert(s0.5.update_ok(cur.5, p5, batch_size, params@, r6));
                    assert(s0.6.update_ok(cur.6, p6, batch_size, params@, r7));
                    assert(s0.7.update_ok(cur.7, p7, batch_size, params@, r8));
                    assert(s0.8.update_ok(cur.8, p8, batch_size, params@, r9));
                    assert(s0.update_ok(cur, pos, batch_size, params@, r9));
                }
                return Err(e);
            },
        };
        assert(p9 <= m + A::width() + B::width() + C::width() + D::width() + E::width() + F::width() + G::width() + H::width() + I::width());
        let r10 = self.9.update_batch_from_bind(p9, batch_size, params);
        proof {
                let cur = *self;
                assert(s0.0.update_ok(cur.0, p0, batch_size, params@, r1));
                assert(s0.1.update_ok(cur.1, p1, batch_size, params@, r2));
                assert(s0.2.update_ok(cur.2, p2, batch_size, params@, r3));
                assert(s0.3.update_ok(cur.3, p3, batch_size, params@, r4));
                assert(s0.4.update_ok(cur.4, p4, batch_size, params@, r5));
                assert(s0.5.update_ok(cur.5, p5, batch_size, params@, r6));
                assert(s0.6.update_ok(cur.6, p6, batch_size, params@, r7));
                assert(s0.7.update_ok(cur.7, p7, batch_size, params@, r8));
                assert(s0.8.update_ok(cur.8, p8, batch_size, params@, r9));
                assert(s0.9.update_ok(cur.9, p9, batch_size, params@, r10));
            assert(s0.update_ok(cur, pos, batch_size, params@, r10));
        }
        r10
    }
}

impl<A: ToBatchSql, B: ToBatchSql, C: ToBatchSql, D: ToBatchSql, E: ToBatchSql, F: ToBatchSql, G: ToBatchSql, H: ToBatchSql, I: ToBatchSql, J: ToBatchSql, K: ToBatchSql> ToBatchSql for (A, B, C, D, E, F, G, H, I, J, K) {
    open spec fn width() -> nat {
        A::width() + B::width() + C::width() + D::width() + E::width() + F::width() + G::width() + H::width() + I::width() + J::width() + K::width()
    }

    proof fn lemma_width() {
        A::lemma_width();
    }

    open spec fn bind_ok(&self, pos: usize, pre: BatchParamsView, post: BatchParamsView, r: Result<usize, BatchError>) -> bool {
        exists|m1: BatchParamsView, q1: Result<usize, BatchError>|
            #[trigger] self.0.bind_ok(pos, pre, m1, q1) && match q1 {
                Err(_) => post == m1 && r == q1,
                Ok(p1) => exists|m2: BatchParamsView, q2: Result<usize, BatchError>|
                    #[trigger] self.1.bind_ok(p1, m1, m2, q2) && match q2 {
                        Err(_) => post == m2 && r == q2,
                        Ok(p2) => exists|m3: BatchParamsView, q3: Result<usize, BatchError>|
                            #[trigger] self.2.bind_ok(p2, m2, m3, q3) && match q3 {
                                Err(_) => post == m3 && r == q3,
                                Ok(p3) => exists|m4: BatchParamsView, q4: Result<usize, BatchError>|
                                    #[trigger] self.3.bind_ok(p3, m3, m4, q4) && match q4 {
                                        Err(_) => post == m4 && r == q4,
                                        Ok(p4) => exists|m5: BatchParamsView, q5: Result<usize, BatchError>|
                                            #[trigger] self.4.bind_ok(p4, m4, m5, q5) && match q5 {
                                                Err(_) => post == m5 && r == q5,
                                                Ok(p5) => exists|m6: BatchParamsView, q6: Result<usize, BatchError>|
                                                    #[trigger] self.5.bind_ok(p5, m5, m6, q6) && match q6 {
                                                        Err(_) => post == m6 && r == q6,
                                                        Ok(p6) => exists|m7: BatchParamsView, q7: Result<usize, BatchError>|
                                                            #[trigger] self.6.bind_ok(p6, m6, m7, q7) && match q7 {
                                                                Err(_) => post == m7 && r == q7,
                                                                Ok(p7) => exists|m8: BatchParamsView, q8: Result<usize, BatchError>|
                                                                    #[trigger] self.7.bind_ok(p7, m7, m8, q8) && match q8 {
                                                                        Err(_) => post == m8 && r == q8,
                                                                        Ok(p8) => exists|m9: BatchParamsView, q9: Result<usize, BatchError>|
                                                                            #[trigger] self.8.bind_ok(p8, m8, m9, q9) && match q9 {
                                                                                Err(_) => post == m9 && r == q9,
                                                                                Ok(p9) => exists|m10: BatchParamsView, q10: Result<usize, BatchError>|
                                                                                    #[trigger] self.9.bind_ok(p9, m9, m10, q10) && match q10 {
                                                                                        Err(_) => post == m10 && r == q10,
                                                                                        Ok(p10) => self.10.bind_ok(p10, m10, post, r),
                                                                                    },
                                                                            },
                                                                    },
                                                            },
                                                    },
                                            },
                                    },
                            },
                    },
            }
    }

    open spec fn update_ok(&self, after: Self, pos: usize, batch_size: usize, params: BatchParamsView, r: Result<usize, BatchError>) -> bool {
        exists|q1: Result<usize, BatchError>|
            #[trigger] self.0.update_ok(after.0, pos, batch_size, params, q1) && match q1 {
                Err(_) => after.1 == self.1 && after.2 == self.2 && after.3 == self.3 && after.4 == self.4 && after.5 == self.5 && after.6 == self.6 && after.7 == self.7 && after.8 == self.8 && after.9 == self.9 && after.10 == self.10 && r == q1,
                Ok(p1) => exists|q2: Result<usize, BatchError>|
                    #[trigger] self.1.update_ok(after.1, p1, batch_size, params, q2) && match q2 {
                        Err(_) => after.2 == self.2 && after.3 == self.3 && after.4 == self.4 && after.5 == self.5 && after.6 == self.6 && after.7 == self.7 && after.8 == self.8 && after.9 == self.9 && after.10 == self.10 && r == q2,
                        Ok(p2) => exists|q3: Result<usize, BatchError>|
                            #[trigger] self.2.update_ok(after.2, p2, batch_size, params, q3) && match q3 {
                                Err(_) => after.3 == self.3 && after.4 == self.4 && after.5 == self.5 && after.6 == self.6 && after.7 == self.7 && after.8 == self.8 && after.9 == self.9 && after.10 == self.10 && r == q3,
                                Ok(p3) => exists|q4: Result<usize, BatchError>|
                                    #[trigger] self.3.update_ok(after.3, p3, batch_size, params, q4) && match q4 {
                                        Err(_) => after.4 == self.4 && after.5 == self.5 && after.6 == self.6 && after.7 == self.7 && after.8 == self.8 && after.9 == self.9 && after.10 == self.10 && r == q4,
                                        Ok(p4) => exists|q5: Result<usize, BatchError>|
                                            #[trigger] self.4.update_ok(after.4, p4, batch_size, params, q5) && match q5 {
                                                Err(_) => after.5 == self.5 && after.6 == self.6 && after.7 == self.7 && after.8 == self.8 && after.9 == self.9 && after.10 == self.10 && r == q5,
                                                Ok(p5) => exists|q6: Result<usize, BatchError>|
                                                    #[trigger] self.5.update_ok(after.5, p5, batch_size, params, q6) && match q6 {
                                                        Err(_) => after.6 == self.6 && after.7 == self.7 && after.8 == self.8 && after.9 == self.9 && after.10 == self.10 && r == q6,
                                                        Ok(p6) => exists|q7: Result<usize, BatchError>|
                                                            #[trigger] self.6.update_ok(after.6, p6, batch_size, params, q7) && match q7 {
                                                                Err(_) => after.7 == self.7 && after.8 == self.8 && after.9 == self.9 && after.10 == self.10 && r == q7,
                                                                Ok(p7) => exists|q8: Result<usize, BatchError>|
                                                                    #[trigger] self.7.update_ok(after.7, p7, batch_size, params, q8) && match q8 {
                                                                        Err(_) => after.8 == self.8 && after.9 == self.9 && after.10 == self.10 && r == q8,
                                                                        Ok(p8) => exists|q9: Result<usize, BatchError>|
                                                                            #[trigger] self.8.update_ok(after.8, p8, batch_size, params, q9) && match q9 {
                                                                                Err(_) => after.9 == self.9 && after.10 == self.10 && r == q9,
                                                                                Ok(p9) => exists|q10: Result<usize, BatchError>|
                                                                                    #[trigger] self.9.update_ok(after.9, p9, batch_size, params, q10) && match q10 {
                                                                                        Err(_) => after.10 == self.10 && r == q10,
                                                                                        Ok(p10) => self.10.update_ok(after.10, p10, batch_size, params, r),
                                                                                    },
                                                                            },
                                                                    },
                                                            },
                                                    },
                                            },
                                    },
                            },
                    },
            }
    }

    /// Binds the arguments one after the other, each from the position the
    /// one before it gives back; the first refusal ends it.
    fn bind_batch_to(&mut self, pos: usize, batch_size: usize, params: &mut BatchParams) -> (r: Result<usize, BatchError>) {
        let ghost s0 = *self;
        let ghost v0 = params@;
        let ghost c = v0.count();
        let ghost m = if pos >= c { pos as nat } else { c };
        proof {
            assert(next_bound(pos, c, Self::width()) == m + Self::width());
        }
        let p0 = pos;
        let r1 = self.0.bind_batch_to(p0, batch_size, params);
        let ghost v1 = params@;
        let p1 = match r1 {
            Ok(p) => p,
            Err(e) => {
                proof {
                    assert(s0.0.bind_ok(p0, v0, v1, r1));
                    assert(s0.bind_ok(pos, v0, v1, r1));
                }
                return Err(e);
            },
        };
        assert(v1.count() == c && p1 <= m + A::width());
        let r2 = self.1.bind_batch_to(p1, batch_size, params);
        let ghost v2 = params@;
        let p2 = match r2 {
            Ok(p) => p,
            Err(e) => {
                proof {
                    assert(s0.0.bind_ok(p0, v0, v1, r1));
                    assert(s0.1.bind_ok(p1, v1, v2, r2));
                    assert(s0.bind_ok(pos, v0, v2, r2));
                }
                return Err(e);
            },
        };
        assert(v2.count() == c && p2 <= m + A::width() + B::width());
        let r3 = self.2.bind_batch_to(p2, batch_size, params);
        let ghost v3 = params@;
        let p3 = match r3 {
            Ok(p) => p,
            Err(e) => {
                proof {
                    assert(s0.0.bind_ok(p0, v0, v1, r1));
                    assert(s0.1.bind_ok(p1, v1, v2, r2));
                    assert(s0.2.bind_ok(p2, v2, v3, r3));
                    assert(s0.bind_ok(pos, v0, v3, r3));
                }
                return Err(e);
            },
        };
        assert(v3.count() == c && p3 <= m + A::width() + B::width() + C::width());
        let r4 = self.3.bind_batch_to(p3, batch_size, params);
        let ghost v4 = params@;
        let p4 = match r4 {
            Ok(p) => p,
            Err(e) => {
                proof {
                    assert(s0.0.bind_ok(p0, v0, v1, r1));
                    assert(s0.1.bind_ok(p1, v1, v2, r2));
                    assert(s0.2.bind_ok(p2, v2, v3, r3));
                    assert(s0.3.bind_ok(p3, v3, v4, r4));
                    assert(s0.bind_ok(pos, v0, v4, r4));
                }
                return Err(e);
            },
        };
        assert(v4.count() == c && p4 <= m + A::width() + B::width() + C::width() + D::width());
        let r5 = self.4.bind_batch_to(p4, batch_size, params);
        let ghost v5 = params@;
        let p5 = match r5 {
            Ok(p) => p,
            Err(e) => {
                proof {
                    assert(s0.0.bind_ok(p0, v0, v1, r1));
                    assert(s0.1.bind_ok(p1, v1, v2, r2));
                    assert(s0.2.bind_ok(p2, v2, v3, r3));
                    assert(s0.3.bind_ok(p3, v3, v4, r4));
                    assert(s0.4.bind_ok(p4, v4, v5, r5));
                    assert(s0.bind_ok(pos, v0, v5, r5));
                }
                return Err(e);
            },
        };
        assert(v5.count() == c && p5 <= m + A::width() + B::width() + C::width() + D::width() + E::width());
        let r6 = self.5.bind_batch_to(p5, batch_size, params);
        let ghost v6 = params@;
        let p6 = match r6 {
            Ok(p) => p,
            Err(e) => {
                proof {
                    assert(s0.0.bind_ok(p0, v0, v1, r1));
                    assert(s0.1.bind_ok(p1, v1, v2, r2));
                    assert(s0.2.bind_ok(p2, v2, v3, r3));
                    assert(s0.3.bind_ok(p3, v3, v4, r4));
                    assert(s0.4.bind_ok(p4, v4, v5, r5));
                    assert(s0.5.bind_ok(p5, v5, v6, r6));
                    assert(s0.bind_ok(pos, v0, v6, r6));
                }
                return Err(e);
            },
        };
        assert(v6.count() == c && p6 <= m + A::width() + B::width() + C::width() + D::width() + E::width() + F::width());
        let r7 = self.6.bind_batch_to(p6, batch_size, params);
        let ghost v7 = params@;
        let p7 = match r7 {
            Ok(p) => p,
            Err(e) => {
                proof {
                    assert(s0.0.bind_ok(p0, v0, v1, r1));
                    assert(s0.1.bind_ok(p1, v1, v2, r2));
                    assert(s0.2.bind_ok(p2, v2, v3, r3));
                    assert(s0.3.bind_ok(p3, v3, v4, r4));
                    assert(s0.4.bind_ok(p4, v4, v5, r5));
                    assert(s0.5.bind_ok(p5, v5, v6, r6));
                    assert(s0.6.bind_ok(p6, v6, v7, r7));
                    assert(s0.bind_ok(pos, v0, v7, r7));
                }
                return Err(e);
            },
        };
        assert(v7.count() == c && p7 <= m + A::width() + B::width() + C::width() + D::width() + E::width() + F::width() + G::width());
        let r8 = self.7.bind_batch_to(p7, batch_size, params);
        let ghost v8 = params@;
        let p8 = match r8 {
            Ok(p) => p,
            Err(e) => {
                proof {
                    assert(s0.0.bind_ok(p0, v0, v1, r1));
                    assert(s0.1.bind_ok(p1, v1, v2, r2));
                    assert(s0.2.bind_ok(p2, v2, v3, r3));
                    assert(s0.3.bind_ok(p3, v3, v4, r4));
                    assert(s0.4.bind_ok(p4, v4, v5, r5));
                    assert(s0.5.bind_ok(p5, v5, v6, r6));
                    assert(s0.6.bind_ok(p6, v6, v7, r7));
                    assert(s0.7.bind_ok(p7, v7, v8, r8));
                    assert(s0.bind_ok(pos, v0, v8, r8));
                }
                return Err(e);
            },
        };
        assert(v8.count() == c && p8 <= m + A::width() + B::width() + C::width() + D::width() + E::width() + F::width() + G::width() + H::width());
        let r9 = self.8.bind_batch_to(p8, batch_size, params);
        let ghost v9 = params@;
        let p9 = match r9 {
            Ok(p) => p,
            Err(e) => {
                proof {
                    assert(s0.0.bind_ok(p0, v0, v1, r1));
                    assert(s0.1.bind_ok(p1, v1, v2, r2));
                    assert(s0.2.bind_ok(p2, v2, v3, r3));
                    assert(s0.3.bind_ok(p3, v3, v4, r4));
                    assert(s0.4.bind_ok(p4, v4, v5, r5));
                    assert(s0.5.bind_ok(p5, v5, v6, r6));
                    assert(s0.6.bind_ok(p6, v6, v7, r7));
                    assert(s0.7.bind_ok(p7, v7, v8, r8));
                    assert(s0.8.bind_ok(p8, v8, v9, r9));
                    assert(s0.bind_ok(pos, v0, v9, r9));
                }
                return Err(e);
            },
        };
        assert(v9.count() == c && p9 <= m + A::width() + B::width() + C::width() + D::width() + E::width() + F::width() + G::width() + H::width() + I::width());
        let r10 = self.9.bind_batch_to(p9, batch_size, params);
        let ghost v10 = params@;
        let p10 = match r10 {
            Ok(p) => p,
            Err(e) => {
                proof {
                    assert(s0.0.bind_ok(p0, v0, v1, r1));
                    assert(s0.1.bind_ok(p1, v1, v2, r2));
                    assert(s0.2.bind_ok(p2, v2, v3, r3));
                    assert(s0.3.bind_ok(p3, v3, v4, r4));
                    assert(s0.4.bind_ok(p4, v4, v5, r5));
                    assert(s0.5.bind_ok(p5, v5, v6, r6));
                    assert(s0.6.bind_ok(p6, v6, v7, r7));
                    assert(s0.7.bind_ok(p7, v7, v8, r8));
                    assert(s0.8.bind_ok(p8, v8, v9, r9));
                    assert(s0.9.bind_ok(p9, v9, v10, r10));
                    assert(s0.bind_ok(pos, v0, v10, r10));
                }
                return Err(e);
            },
        };
        assert(v10.count() == c && p10 <= m + A::width() + B::width() + C::width() + D::width() + E::width() + F::width() + G::width() + H::width() + I::width() + J::width());
        let r11 = self.10.bind_batch_to(p10, batch_size, params);
        let ghost v11 = params@;
        proof {
            assert(s0.0.bind_ok(p0, v0, v1, r1));
            assert(s0.1.bind_ok(p1, v1, v2, r2));
            assert(s0.2.bind_ok(p2, v2, v3, r3));
            assert(s0.3.bind_ok(p3, v3, v4, r4));
            assert(s0.4.bind_ok(p4, v4, v5, r5));
            assert(s0.5.bind_ok(p5, v5, v6, r6));
            assert(s0.6.bind_ok(p6, v6, v7, r7));
            assert(s0.7.bind_ok(p7, v7, v8, r8));
            assert(s0.8.bind_ok(p8, v8, v9, r9));
            assert(s0.9.bind_ok(p9, v9, v10, r10));
            assert(s0.10.bind_ok(p10, v10, v11, r11));
            assert(s0.bind_ok(pos, v0, v11, r11));
        }
        r11
    }

    /// Updates the arguments one after the other; the first refusal ends it.
    fn update_batch_from_bind(&mut self, pos: usize, batch_size: usize, params: &BatchParams) -> (r: Result<usize, BatchError>) {
        let ghost s0 = *self;
        let ghost c = params@.count();
        let ghost m = if pos >= c { pos as nat } else { c };
        proof {
            assert(next_bound(pos, c, Self::width()) == m + Self::width());
        }
        let p0 = pos;
        let r1 = self.0.update_batch_from_bind(p0, batch_size, params);
        let p1 = match r1 {
            Ok(p) => p,
            Err(e) => {
                proof {
                    let cur = *self;
                    assert(s0.0.update_ok(cur.0, p0, batch_size, params@, r1));
                    assert(s0.update_ok(cur, pos, batch_size, params@, r1));
                }
                return Err(e);
            },
        };
        assert(p1 <= m + A::width());
        let r2 = self.1.update_batch_from_bind(p1, batch_size, params);
        let p2 = match r2 {
            Ok(p) => p,
            Err(e) => {
                proof {
                    let cur = *self;
                    assert(s0.0.update_ok(cur.0, p0, batch_size, params@, r1));
                    assert(s0.1.update_ok(cur.1, p1, batch_size, params@, r2));
                    assert(s0.update_ok(cur, pos, batch_size, params@, r2));
                }
                return Err(e);
            },
        };
        assert(p2 <= m + A::width() + B::width());
        let r3 = self.2.update_batch_from_bind(p2, batch_size, params);
        let p3 = match r3 {
            Ok(p) => p,
            Err(e) => {
                proof {
                    let cur = *self;
                    assert(s0.0.update_ok(cur.0, p0, batch_size, params@, r1));
                    assert(s0.1.update_ok(cur.1, p1, batch_size, params@, r2));
                    assert(s0.2.update_ok(cur.2, p2, batch_size, params@, r3));
                    assert(s0.update_ok(cur, pos, batch_size, params@, r3));
                }
                return Err(e);
            },
        };
        assert(p3 <= m + A::width() + B::width() + C::width());
        let r4 = self.3.update_batch_from_bind(p3, batch_size, params);
        let p4 = match r4 {
            Ok(p) => p,
            Err(e) => {
                proof {
                    let cur = *self;
                    assert(s0.0.update_ok(cur.0, p0, batch_size, params@, r1));
                    assert(s0.1.update_ok(cur.1, p1, batch_size, params@, r2));
                    assert(s0.2.update_ok(cur.2, p2, batch_size, params@, r3));
                    assert(s0.3.update_ok(cur.3, p3, batch_size, params@, r4));
                    assert(s0.update_ok(cur, pos, batch_size, params@, r4));
                }
                return Err(e);
            },
        };
        assert(p4 <= m + A::width() + B::width() + C::width() + D::width());
        let r5 = self.4.update_batch_from_bind(p4, batch_size, params);
        let p5 = match r5 {
            Ok(p) => p,
            Err(e) => {
                proof {
                    let cur = *self;
                    assert(s0.0.update_ok(cur.0, p0, batch_size, params@, r1));
                    assert(s0.1.update_ok(cur.1, p1, batch_size, params@, r2));
                    assert(s0.2.update_ok(cur.2, p2, batch_size, params@, r3));
                    assert(s0.3.update_ok(cur.3, p3, batch_size, params@, r4));
                    assert(s0.4.update_ok(cur.4, p4, batch_size, params@, r5));
                    assert(s0.update_ok(cur, pos, batch_size, params@, r5));
                }
                return Err(e);
            },
        };
        assert(p5 <= m + A::width() + B::width() + C::width() + D::width() + E::width());
        let r6 = self.5.update_batch_from_bind(p5, batch_size, params);
        let p6 = match r6 {
            Ok(p) => p,
            Err(e) => {
                proof {
                    let cur = *self;
                    assert(s0.0.update_ok(cur.0, p0, batch_size, params@, r1));
                    assert(s0.1.update_ok(cur.1, p1, batch_size, params@, r2));
                    assert(s0.2.update_ok(cur.2, p2, batch_size, params@, r3));
                    assert(s0.3.update_ok(cur.3, p3, batch_size, params@, r4));
                    assert(s0.4.update_ok(cur.4, p4, batch_size, params@, r5));
                    assert(s0.5.update_ok(cur.5, p5, batch_size, params@, r6));
                    assert(s0.update_ok(cur, pos, batch_size, params@, r6));
                }
                return Err(e);
            },
        };
        assert(p6 <= m + A::width() + B::width() + C::width() + D::width() + E::width() + F::width());
        let r7 = self.6.update_batch_from_bind(p6, batch_size, params);
        let p7 = match r7 {
            Ok(p) => p,
            Err(e) => {
                proof {
                    let cur = *self;
                    assert(s0.0.update_ok(cur.0, p0, batch_size, params@, r1));
                    assert(s0.1.update_ok(cur.1, p1, batch_size, params@, r2));
                    assert(s0.2.update_ok(cur.2, p2, batch_size, params@, r3));
                    assert(s0.3.update_ok(cur.3, p3, batch_size, params@, r4));
                    assert(s0.4.update_ok(cur.4, p4, batch_size, params@, r5));
                    assert(s0.5.update_ok(cur.5, p5, batch_size, params@, r6));
                    assert(s0.6.update_ok(cur.6, p6, batch_size, params@, r7));
                    assert(s0.update_ok(cur, pos, batch_size, params@, r7));
                }
                return Err(e);
            },
        };
        assert(p7 <= m + A::width() + B::width() + C::width() + D::width() + E::width() + F::width() + G::width());
        let r8 = self.7.update_batch_from_bind(p7, batch_size, params);
        let p8 = match r8 {
            Ok(p) => p,
            Err(e) => {
                proof {
                    let cur = *self;
                    assert(s0.0.update_ok(cur.0, p0, batch_size, params@, r1));
                    assert(s0.1.update_ok(cur.1, p1, batch_size, params@, r2));
                    assert(s0.2.update_ok(cur.2, p2, batch_size, params@, r3));
                    assert(s0.3.update_ok(cur.3, p3, batch_size, params@, r4));
                    assert(s0.4.update_ok(cur.4, p4, batch_size, params@, r5));
                    assert(s0.5.update_ok(cur.5, p5, batch_size, params@, r6));
                    assert(s0.6.update_ok(cur.6, p6, batch_size, params@, r7));
                    assert(s0.7.update_ok(cur.7, p7, batch_size, params@, r8));
                    assert(s0.update_ok(cur, pos, batch_size, params@, r8));
                }
                return Err(e);
            },
        };
        assert(p8 <= m + A::width() + B::width() + C::width() + D::width() + E::width() + F::width() + G::width() + H::width());
        let r9 = self.8.update_batch_from_bind(p8, batch_size, params);
        let p9 = match r9 {
            Ok(p) => p,
            Err(e) => {
                proof {
                    let cur = *self;
                    assert(s0.0.update_ok(cur.0, p0, batch_size, params@, r1));
                    assert(s0.1.update_ok(cur.1, p1, batch_size, params@, r2));
                    assert(s0.2.update_ok(cur.2, p2, batch_size, params@, r3));
                    assert(s0.3.update_ok(cur.3, p3, batch_size, params@, r4));
                    assert(s0.4.update_ok(cur.4, p4, batch_size, params@, r5));
                    assert(s0.5.update_ok(cur.5, p5, batch_size, params@, r6));
                    assert(s0.6.update_ok(cur.6, p6, batch_size, params@, r7));
                    assert(s0.7.update_ok(cur.7, p7, batch_size, params@, r8));
                    assert(s0.8.update_ok(cur.8, p8, batch_size, params@, r9));
                    assert(s0.update_ok(cur, pos, batch_size, params@, r9));
                }
                return Err(e);
            },
        };
        assert(p9 <= m + A::width() + B::width() + C::width() + D::width() + E::width() + F::width() + G::width() + H::width() + I::width());
        let r10 = self.9.update_batch_from_bind(p9, batch_size, params);
        let p10 = match r10 {
            Ok(p) => p,
            Err(e) => {
                proof {
                    let cur = *self;
                    assert(s0.0.update_ok(cur.0, p0, batch_size, params@, r1));
                    assert(s0.1.update_ok(cur.1, p1, batch_size, params@, r2));
                    assert(s0.2.update_ok(cur.2, p2, batch_size, params@, r3));
                    assert(s0.3.update_ok(cur.3, p3, batch_size, params@, r4));
                    assert(s0.4.update_ok(cur.4, p4, batch_size, params@, r5));
                    assert(s0.5.update_ok(cur.5, p5, batch_size, params@, r6));
                    assert(s0.6.update_ok(cur.6, p6, batch_size, params@, r7));
                    assert(s0.7.update_ok(cur.7, p7, batch_size, params@, r8));
                    assert(s0.8.update_ok(cur.8, p8, batch_size, params@, r9));
                    assert(s0.9.update_ok(cur.9, p9, batch_size, params@, r10));
                    assert(s0.update_ok(cur, pos, batch_size, params@, r10));
                }
                return Err(e);
            },
        };
        assert(p10 <= m + A::width() + B::width() + C::width() + D::width() + E::width() + F::width() + G::width() + H::width() + I::width() + J::width());
        let r11 = self.10.update_batch_from_bind(p10, batch_size, params);
        proof {
                let cur = *self;
                assert(s0.0.update_ok(cur.0, p0, batch_size, params@, r1));
                assert(s0.1.update_ok(cur.1, p1, batch_size, params@, r2));
                assert(s0.2.update_ok(cur.2, p2, batch_size, params@, r3));
                assert(s0.3.update_ok(cur.3, p3, batch_size, params@, r4));
                assert(s0.4.update_ok(cur.4, p4, batch_size, params@, r5));
                assert(s0.5.update_ok(cur.5, p5, batch_size, params@, r6));
                assert(s0.6.update_ok(cur.6, p6, batch_size, params@, r7));
                assert(s0.7.update_ok(cur.7, p7, batch_size, params@, r8));
                assert(s0.8.update_ok(cur.8, p8, batch_size, params@, r9));
                assert(s0.9.update_ok(cur.9, p9, batch_size, params@, r10));
                assert(s0.10.update_ok(cur.10, p10, batch_size, params@, r11));
            assert(s0.update_ok(cur, pos, batch_size, params@, r11));
        }
        r11
    }
}

impl<A: ToBatchSql, B: ToBatchSql, C: ToBatchSql, D: ToBatchSql, E: ToBatchSql, F: ToBatchSql, G: ToBatchSql, H: ToBatchSql, I: ToBatchSql, J: ToBatchSql, K: ToBatchSql, L: ToBatchSql> ToBatchSql for (A, B, C, D, E, F, G, H, I, J, K, L) {
    open spec fn width() -> nat {
        A::width() + B::width() + C::width() + D::width() + E::width() + F::width() + G::width() + H::width() + I::width() + J::width() + K::width() + L::width()
    }

    proof fn lemma_width() {
        A::lemma_width();
    }

    open spec fn bind_ok(&self, pos: usize, pre: BatchParamsView, post: BatchParamsView, r: Result<usize, BatchError>) -> bool {
        exists|m1: BatchParamsView, q1: Result<usize, BatchError>|
            #[trigger] self.0.bind_ok(pos, pre, m1, q1) && match q1 {
                Err(_) => post == m1 && r == q1,
                Ok(p1) => exists|m2: BatchParamsView, q2: Result<usize, BatchError>|
                    #[trigger] self.1.bind_ok(p1, m1, m2, q2) && match q2 {
                        Err(_) => post == m2 && r == q2,
                        Ok(p2) => exists|m3: BatchParamsView, q3: Result<usize, BatchError>|
                            #[trigger] self.2.bind_ok(p2, m2, m3, q3) && match q3 {
                                Err(_) => post == m3 && r == q3,
                                Ok(p3) => exists|m4: BatchParamsView, q4: Result<usize, BatchError>|
                                    #[trigger] self.3.bind_ok(p3, m3, m4, q4) && match q4 {
                                        Err(_) => post == m4 && r == q4,
                                        Ok(p4) => exists|m5: BatchParamsView, q5: Result<usize, BatchError>|
                                            #[trigger] self.4.bind_ok(p4, m4, m5, q5) && match q5 {
                                                Err(_) => post == m5 && r == q5,
                                                Ok(p5) => exists|m6: BatchParamsView, q6: Result<usize, BatchError>|
                                                    #[trigger] self.5.bind_ok(p5, m5, m6, q6) && match q6 {
                                                        Err(_) => post == m6 && r == q6,
                                                        Ok(p6) => exists|m7: BatchParamsView, q7: Result<usize, BatchError>|
                                                            #[trigger] self.6.bind_ok(p6, m6, m7, q7) && match q7 {
                                                                Err(_) => post == m7 && r == q7,
                                                                Ok(p7) => exists|m8: BatchParamsView, q8: Result<usize, BatchError>|
                                                                    #[trigger] self.7.bind_ok(p7, m7, m8, q8) && match q8 {
                                                                        Err(_) => post == m8 && r == q8,
                                                                        Ok(p8) => exists|m9: BatchParamsView, q9: Result<usize, BatchError>|
                                                                            #[trigger] self.8.bind_ok(p8, m8, m9, q9) && match q9 {
                                                                                Err(_) => post == m9 && r == q9,
                                                                                Ok(p9) => exists|m10: BatchParamsView, q10: Result<usize, BatchError>|
                                                                                    #[trigger] self.9.bind_ok(p9, m9, m10, q10) && match q10 {
                                                                                        Err(_) => post == m10 && r == q10,
                                                                                        Ok(p10) => exists|m11: BatchParamsView, q11: Result<usize, BatchError>|
                                                                                            #[trigger] self.10.bind_ok(p10, m10, m11, q11) && match q11 {
                                                                                                Err(_) => post == m11 && r == q11,
                                                                                                Ok(p11) => self.11.bind_ok(p11, m11, post, r),
                                                                                            },
                                                                                    },
                                                                            },
                                                                    },
                                                            },
                                                    },
                                            },
                                    },
                            },
                    },
            }
    }

    open spec fn update_ok(&self, after: Self, pos: usize, batch_size: usize, params: BatchParamsView, r: Result<usize, BatchError>) -> bool {
        exists|q1: Result<usize, BatchError>|
            #[trigger] self.0.update_ok(after.0, pos, batch_size, params, q1) && match q1 {
                Err(_) => after.1 == self.1 && after.2 == self.2 && after.3 == self.3 && after.4 == self.4 && after.5 == self.5 && after.6 == self.6 && after.7 == self.7 && after.8 == self.8 && after.9 == self.9 && after.10 == self.10 && after.11 == self.11 && r == q1,
                Ok(p1) => exists|q2: Result<usize, BatchError>|
                    #[trigger] self.1.update_ok(after.1, p1, batch_size, params, q2) && match q2 {
                        Err(_) => after.2 == self.2 && after.3 == self.3 && after.4 == self.4 && after.5 == self.5 && after.6 == self.6 && after.7 == self.7 && after.8 == self.8 && after.9 == self.9 && after.10 == self.10 && after.11 == self.11 && r == q2,
                        Ok(p2) => exists|q3: Result<usize, BatchError>|
                            #[trigger] self.2.update_ok(after.2, p2, batch_size, params, q3) && match q3 {
                                Err(_) => after.3 == self.3 && after.4 == self.4 && after.5 == self.5 && after.6 == self.6 && after.7 == self.7 && after.8 == self.8 && after.9 == self.9 && after.10 == self.10 && after.11 == self.11 && r == q3,
                                Ok(p3) => exists|q4: Result<usize, BatchError>|
                                    #[trigger] self.3.update_ok(after.3, p3, batch_size, params, q4) && match q4 {
                                        Err(_) => after.4 == self.4 && after.5 == self.5 && after.6 == self.6 && after.7 == self.7 && after.8 == self.8 && after.9 == self.9 && after.10 == self.10 && after.11 == self.11 && r == q4,
                                        Ok(p4) => exists|q5: Result<usize, BatchError>|
                                            #[trigger] self.4.update_ok(after.4, p4, batch_size, params, q5) && match q5 {
                                                Err(_) => after.5 == self.5 && after.6 == self.6 && after.7 == self.7 && after.8 == self.8 && after.9 == self.9 && after.10 == self.10 && after.11 == self.11 && r == q5,
                                                Ok(p5) => exists|q6: Result<usize, BatchError>|
                                                    #[trigger] self.5.update_ok(after.5, p5, batch_size, params, q6) && match q6 {
                                                        Err(_) => after.6 == self.6 && after.7 == self.7 && after.8 == self.8 && after.9 == self.9 && after.10 == self.10 && after.11 == self.11 && r == q6,
                                                        Ok(p6) => exists|q7: Result<usize, BatchError>|
                                                            #[trigger] self.6.update_ok(after.6, p6, batch_size, params, q7) && match q7 {
                                                                Err(_) => after.7 == self.7 && after.8 == self.8 && after.9 == self.9 && after.10 == self.10 && after.11 == self.11 && r == q7,
                                                                Ok(p7) => exists|q8: Result<usize, BatchError>|
                                                                    #[trigger] self.7.update_ok(after.7, p7, batch_size, params, q8) && match q8 {
                                                                        Err(_) => after.8 == self.8 && after.9 == self.9 && after.10 == self.10 && after.11 == self.11 && r == q8,
                                                                        Ok(p8) => exists|q9: Result<usize, BatchError>|
                                                                            #[trigger] self.8.update_ok(after.8, p8, batch_size, params, q9) && match q9 {
                                                                                Err(_) => after.9 == self.9 && after.10 == self.10 && after.11 == self.11 && r == q9,
                                                                                Ok(p9) => exists|q10: Result<usize, BatchError>|
                                                                                    #[trigger] self.9.update_ok(after.9, p9, batch_size, params, q10) && match q10 {
                                                                                        Err(_) => after.10 == self.10 && after.11 == self.11 && r == q10,
                                                                                        Ok(p10) => exists|q11: Result<usize, BatchError>|
                                                                                            #[trigger] self.10.update_ok(after.10, p10, batch_size, params, q11) && match q11 {
                                                                                                Err(_) => after.11 == self.11 && r == q11,
                                                                                                Ok(p11) => self.11.update_ok(after.11, p11, batch_size, params, r),
                                                                                            },
                                                                                    },
                                                                            },
                                                                    },
                                                            },
                                                    },
                                            },
                                    },
                            },
                    },
            }
    }

    /// Binds the arguments one after the other, each from the position the
    /// one before it gives back; the first refusal ends it.
    fn bind_batch_to(&mut self, pos: usize, batch_size: usize, params: &mut BatchParams) -> (r: Result<usize, BatchError>) {
        let ghost s0 = *self;
        let ghost v0 = params@;
        let ghost c = v0.count();
        let ghost m = if pos >= c { pos as nat } else { c };
        proof {
            assert(next_bound(pos, c, Self::width()) == m + Self::width());
        }
        let p0 = pos;
        let r1 = self.0.bind_batch_to(p0, batch_size, params);
        let ghost v1 = params@;
        let p1 = match r1 {
            Ok(p) => p,
            Err(e) => {
                proof {
                    assert(s0.0.bind_ok(p0, v0, v1, r1));
                    assert(s0.bind_ok(pos, v0, v1, r1));
                }
                return Err(e);
            },
        };
        assert(v1.count() == c && p1 <= m + A::width());
        let r2 = self.1.bind_batch_to(p1, batch_size, params);
        let ghost v2 = params@;
        let p2 = match r2 {
            Ok(p) => p,
            Err(e) => {
                proof {
                    assert(s0.0.bind_ok(p0, v0, v1, r1));
                    assert(s0.1.bind_ok(p1, v1, v2, r2));
                    assert(s0.bind_ok(pos, v0, v2, r2));
                }
                return Err(e);
            },
        };
        assert(v2.count() == c && p2 <= m + A::width() + B::width());
        let r3 = self.2.bind_batch_to(p2, batch_size, params);
        let ghost v3 = params@;
        let p3 = match r3 {
            Ok(p) => p,
            Err(e) => {
                proof {
                    assert(s0.0.bind_ok(p0, v0, v1, r1));
                    assert(s0.1.bind_ok(p1, v1, v2, r2));
                    assert(s0.2.bind_ok(p2, v2, v3, r3));
                    assert(s0.bind_ok(pos, v0, v3, r3));
                }
                return Err(e);
            },
        };
        assert(v3.count() == c && p3 <= m + A::width() + B::width() + C::width());
        let r4 = self.3.bind_batch_to(p3, batch_size, params);
        let ghost v4 = params@;
        let p4 = match r4 {
            Ok(p) => p,
            Err(e) => {
                proof {
                    assert(s0.0.bind_ok(p0, v0, v1, r1));
                    assert(s0.1.bind_ok(p1, v1, v2, r2));
                    assert(s0.2.bind_ok(p2, v2, v3, r3));
                    assert(s0.3.bind_ok(p3, v3, v4, r4));
                    assert(s0.bind_ok(pos, v0, v4, r4));
                }
                return Err(e);
            },
        };
        assert(v4.count() == c && p4 <= m + A::width() + B::width() + C::width() + D::width());
        let r5 = self.4.bind_batch_to(p4, batch_size, params);
        let ghost v5 = params@;
        let p5 = match r5 {
            Ok(p) => p,
            Err(e) => {
                proof {
                    assert(s0.0.bind_ok(p0, v0, v1, r1));
                    assert(s0.1.bind_ok(p1, v1, v2, r2));
                    assert(s0.2.bind_ok(p2, v2, v3, r3));
                    assert(s0.3.bind_ok(p3, v3, v4, r4));
                    assert(s0.4.bind_ok(p4, v4, v5, r5));
                    assert(s0.bind_ok(pos, v0, v5, r5));
                }
                return Err(e);
            },
        };
        assert(v5.count() == c && p5 <= m + A::width() + B::width() + C::width() + D::width() + E::width());
        let r6 = self.5.bind_batch_to(p5, batch_size, params);
        let ghost v6 = params@;
        let p6 = match r6 {
            Ok(p) => p,
            Err(e) => {
                proof {
                    assert(s0.0.bind_ok(p0, v0, v1, r1));
                    assert(s0.1.bind_ok(p1, v1, v2, r2));
                    assert(s0.2.bind_ok(p2, v2, v3, r3));
                    assert(s0.3.bind_ok(p3, v3, v4, r4));
                    assert(s0.4.bind_ok(p4, v4, v5, r5));
                    assert(s0.5.bind_ok(p5, v5, v6, r6));
                    assert(s0.bind_ok(pos, v0, v6, r6));
                }
                return Err(e);
            },
        };
        assert(v6.count() == c && p6 <= m + A::width() + B::width() + C::width() + D::width() + E::width() + F::width());
        let r7 = self.6.bind_batch_to(p6, batch_size, params);
        let ghost v7 = params@;
        let p7 = match r7 {
            Ok(p) => p,
            Err(e) => {
                proof {
                    assert(s0.0.bind_ok(p0, v0, v1, r1));
                    assert(s0.1.bind_ok(p1, v1, v2, r2));
                    assert(s0.2.bind_ok(p2, v2, v3, r3));
                    assert(s0.3.bind_ok(p3, v3, v4, r4));
                    assert(s0.4.bind_ok(p4, v4, v5, r5));
                    assert(s0.5.bind_ok(p5, v5, v6, r6));
                    assert(s0.6.bind_ok(p6, v6, v7, r7));
                    assert(s0.bind_ok(pos, v0, v7, r7));
                }
                return Err(e);
            },
        };
        assert(v7.count() == c && p7 <= m + A::width() + B::width() + C::width() + D::width() + E::width() + F::width() + G::width());
        let r8 = self.7.bind_batch_to(p7, batch_size, params);
        let ghost v8 = params@;
        let p8 = match r8 {
            Ok(p) => p,
            Err(e) => {
                proof {
                    assert(s0.0.bind_ok(p0, v0, v1, r1));
                    assert(s0.1.bind_ok(p1, v1, v2, r2));
                    assert(s0.2.bind_ok(p2, v2, v3, r3));
                    assert(s0.3.bind_ok(p3, v3, v4, r4));
                    assert(s0.4.bind_ok(p4, v4, v5, r5));
                    assert(s0.5.bind_ok(p5, v5, v6, r6));
                    assert(s0.6.bind_ok(p6, v6, v7, r7));
                    assert(s0.7.bind_ok(p7, v7, v8, r8));
                    assert(s0.bind_ok(pos, v0, v8, r8));
                }
                return Err(e);
            },
        };
        assert(v8.count() == c && p8 <= m + A::width() + B::width() + C::width() + D::width() + E::width() + F::width() + G::width() + H::width());
        let r9 = self.8.bind_batch_to(p8, batch_size, params);
        let ghost v9 = params@;
        let p9 = match r9 {
            Ok(p) => p,
            Err(e) => {
                proof {
                    assert(s0.0.bind_ok(p0, v0, v1, r1));
                    assert(s0.1.bind_ok(p1, v1, v2, r2));
                    assert(s0.2.bind_ok(p2, v2, v3, r3));
                    assert(s0.3.bind_ok(p3, v3, v4, r4));
                    assert(s0.4.bind_ok(p4, v4, v5, r5));
                    assert(s0.5.bind_ok(p5, v5, v6, r6));
                    assert(s0.6.bind_ok(p6, v6, v7, r7));
                    assert(s0.7.bind_ok(p7, v7, v8, r8));
                    assert(s0.8.bind_ok(p8, v8, v9, r9));
                    assert(s0.bind_ok(pos, v0, v9, r9));
                }
                return Err(e);
            },
        };
        assert(v9.count() == c && p9 <= m + A::width() + B::width() + C::width() + D::width() + E::width() + F::width() + G::width() + H::width() + I::width());
        let r10 = self.9.bind_batch_to(p9, batch_size, params);
        let ghost v10 = params@;
        let p10 = match r10 {
            Ok(p) => p,
            Err(e) => {
                proof {
                    assert(s0.0.bind_ok(p0, v0, v1, r1));
                    assert(s0.1.bind_ok(p1, v1, v2, r2));
                    assert(s0.2.bind_ok(p2, v2, v3, r3));
                    assert(s0.3.bind_ok(p3, v3, v4, r4));
                    assert(s0.4.bind_ok(p4, v4, v5, r5));
                    assert(s0.5.bind_ok(p5, v5, v6, r6));
                    assert(s0.6.bind_ok(p6, v6, v7, r7));
                    assert(s0.7.bind_ok(p7, v7, v8, r8));
                    assert(s0.8.bind_ok(p8, v8, v9, r9));
                    assert(s0.9.bind_ok(p9, v9, v10, r10));
                    assert(s0.bind_ok(pos, v0, v10, r10));
                }
                return Err(e);
            },
        };
        assert(v10.count() == c && p10 <= m + A::width() + B::width() + C::width() + D::width() + E::width() + F::width() + G::width() + H::width() + I::width() + J::width());
        let r11 = self.10.bind_batch_to(p10, batch_size, params);
        let ghost v11 = params@;
        let p11 = match r11 {
            Ok(p) => p,
            Err(e) => {
                proof {
                    assert(s0.0.bind_ok(p0, v0, v1, r1));
                    assert(s0.1.bind_ok(p1, v1, v2, r2));
                    assert(s0.2.bind_ok(p2, v2, v3, r3));
                    assert(s0.3.bind_ok(p3, v3, v4, r4));
                    assert(s0.4.bind_ok(p4, v4, v5, r5));
                    assert(s0.5.bind_ok(p5, v5, v6, r6));
                    assert(s0.6.bind_ok(p6, v6, v7, r7));
                    assert(s0.7.bind_ok(p7, v7, v8, r8));
                    assert(s0.8.bind_ok(p8, v8, v9, r9));
                    assert(s0.9.bind_ok(p9, v9, v10, r10));
                    assert(s0.10.bind_ok(p10, v10, v11, r11));
                    assert(s0.bind_ok(pos, v0, v11, r11));
                }
                return Err(e);
            },
        };
        assert(v11.count() == c && p11 <= m + A::width() + B::width() + C::width() + D::width() + E::width() + F::width() + G::width() + H::width() + I::width() + J::width() + K::width());
        let r12 = self.11.bind_batch_to(p11, batch_size, params);
        let ghost v12 = params@;
        proof {
            assert(s0.0.bind_ok(p0, v0, v1, r1));
            assert(s0.1.bind_ok(p1, v1, v2, r2));
            assert(s0.2.bind_ok(p2, v2, v3, r3));
            assert(s0.3.bind_ok(p3, v3, v4, r4));
            assert(s0.4.bind_ok(p4, v4, v5, r5));
            assert(s0.5.bind_ok(p5, v5, v6, r6));
            assert(s0.6.bind_ok(p6, v6, v7, r7));
            assert(s0.7.bind_ok(p7, v7, v8, r8));
            assert(s0.8.bind_ok(p8, v8, v9, r9));
            assert(s0.9.bind_ok(p9, v9, v10, r10));
            assert(s0.10.bind_ok(p10, v10, v11, r11));
            assert(s0.11.bind_ok(p11, v11, v12, r12));
            assert(s0.bind_ok(pos, v0, v12, r12));
        }
        r12
    }

    /// Updates the arguments one after the other; the first refusal ends it.
    fn update_batch_from_bind(&mut self, pos: usize, batch_size: usize, params: &BatchParams) -> (r: Result<usize, BatchError>) {
        let ghost s0 = *self;
        let ghost c = params@.count();
        let ghost m = if pos >= c { pos as nat } else { c };
        proof {
            assert(next_bound(pos, c, Self::width()) == m + Self::width());
        }
        let p0 = pos;
        let r1 = self.0.update_batch_from_bind(p0, batch_size, params);
        let p1 = match r1 {
            Ok(p) => p,
            Err(e) => {
                proof {
                    let cur = *self;
                    assert(s0.0.update_ok(cur.0, p0, batch_size, params@, r1));
                    assert(s0.update_ok(cur, pos, batch_size, params@, r1));
                }
                return Err(e);
            },
        };
        assert(p1 <= m + A::width());
        let r2 = self.1.update_batch_from_bind(p1, batch_size, params);
        let p2 = match r2 {
            Ok(p) => p,
            Err(e) => {
                proof {
                    let cur = *self;
                    assert(s0.0.update_ok(cur.0, p0, batch_size, params@, r1));
                    assert(s0.1.update_ok(cur.1, p1, batch_size, params@, r2));
                    assert(s0.update_ok(cur, pos, batch_size, params@, r2));
                }
                return Err(e);
            },
        };
        assert(p2 <= m + A::width() + B::width());
        let r3 = self.2.update_batch_from_bind(p2, batch_size, params);
        let p3 = match r3 {
            Ok(p) => p,
            Err(e) => {
                proof {
                    let cur = *self;
                    assert(s0.0.update_ok(cur.0, p0, batch_size, params@, r1));
                    assert(s0.1.update_ok(cur.1, p1, batch_size, params@, r2));
                    assert(s0.2.update_ok(cur.2, p2, batch_size, params@, r3));
                    assert(s0.update_ok(cur, pos, batch_size, params@, r3));
                }
                return Err(e);
            },
        };
        assert(p3 <= m + A::width() + B::width() + C::width());
        let r4 = self.3.update_batch_from_bind(p3, batch_size, params);
        let p4 = match r4 {
            Ok(p) => p,
            Err(e) => {
                proof {
                    let cur = *self;
                    assert(s0.0.update_ok(cur.0, p0, batch_size, params@, r1));
                    assert(s0.1.update_ok(cur.1, p1, batch_size, params@, r2));
                    assert(s0.2.update_ok(cur.2, p2, batch_size, params@, r3));
                    assert(s0.3.update_ok(cur.3, p3, batch_size, params@, r4));
                    assert(s0.update_ok(cur, pos, batch_size, params@, r4));
                }
                return Err(e);
            },
        };
        assert(p4 <= m + A::width() + B::width() + C::width() + D::width());
        let r5 = self.4.update_batch_from_bind(p4, batch_size, params);
        let p5 = match r5 {
            Ok(p) => p,
            Err(e) => {
                proof {
                    let cur = *self;
                    assert(s0.0.update_ok(cur.0, p0, batch_size, params@, r1));
                    assert(s0.1.update_ok(cur.1, p1, batch_size, params@, r2));
                    assert(s0.2.update_ok(cur.2, p2, batch_size, params@, r3));
                    assert(s0.3.update_ok(cur.3, p3, batch_size, params@, r4));
                    assert(s0.4.update_ok(cur.4, p4, batch_size, params@, r5));
                    assert(s0.update_ok(cur, pos, batch_size, params@, r5));
                }
                return Err(e);
            },
        };
        assert(p5 <= m + A::width() + B::width() + C::width() + D::width() + E::width());
        let r6 = self.5.update_batch_from_bind(p5, batch_size, params);
        let p6 = match r6 {
            Ok(p) => p,
            Err(e) => {
                proof {
                    let cur = *self;
                    assert(s0.0.update_ok(cur.0, p0, batch_size, params@, r1));
                    assert(s0.1.update_ok(cur.1, p1, batch_size, params@, r2));
                    assert(s0.2.update_ok(cur.2, p2, batch_size, params@, r3));
                    assert(s0.3.update_ok(cur.3, p3, batch_size, params@, r4));
                    assert(s0.4.update_ok(cur.4, p4, batch_size, params@, r5));
                    assert(s0.5.update_ok(cur.5, p5, batch_size, params@, r6));
                    assert(s0.update_ok(cur, pos, batch_size, params@, r6));
                }
                return Err(e);
            },
        };
        assert(p6 <= m + A::width() + B::width() + C::width() + D::width() + E::width() + F::width());
        let r7 = self.6.update_batch_from_bind(p6, batch_size, params);
        let p7 = match r7 {
            Ok(p) => p,
            Err(e) => {
                proof {
                    let cur = *self;
                    assert(s0.0.update_ok(cur.0, p0, batch_size, params@, r1));
                    assert(s0.1.update_ok(cur.1, p1, batch_size, params@, r2));
                    assert(s0.2.update_ok(cur.2, p2, batch_size, params@, r3));
                    assert(s0.3.update_ok(cur.3, p3, batch_size, params@, r4));
                    assert(s0.4.update_ok(cur.4, p4, batch_size, params@, r5));
                    assert(s0.5.update_ok(cur.5, p5, batch_size, params@, r6));
                    assert(s0.6.update_ok(cur.6, p6, batch_size, params@, r7));
                    assert(s0.update_ok(cur, pos, batch_size, params@, r7));
                }
                return Err(e);
            },
        };
        assert(p7 <= m + A::width() + B::width() + C::width() + D::width() + E::width() + F::width() + G::width());
        let r8 = self.7.update_batch_from_bind(p7, batch_size, params);
        let p8 = match r8 {
            Ok(p) => p,
            Err(e) => {
                proof {
                    let cur = *self;
                    assert(s0.0.update_ok(cur.0, p0, batch_size, params@, r1));
                    assert(s0.1.update_ok(cur.1, p1, batch_size, params@, r2));
                    assert(s0.2.update_ok(cur.2, p2, batch_size, params@, r3));
                    assert(s0.3.update_ok(cur.3, p3, batch_size, params@, r4));
                    assert(s0.4.update_ok(cur.4, p4, batch_size, params@, r5));
                    assert(s0.5.update_ok(cur.5, p5, batch_size, params@, r6));
                    assert(s0.6.update_ok(cur.6, p6, batch_size, params@, r7));
                    assert(s0.7.update_ok(cur.7, p7, batch_size, params@, r8));
                    assert(s0.update_ok(cur, pos, batch_size, params@, r8));
                }
                return Err(e);
            },
        };
        assert(p8 <= m + A::width() + B::width() + C::width() + D::width() + E::width() + F::width() + G::width() + H::width());
        let r9 = self.8.update_batch_from_bind(p8, batch_size, params);
        let p9 = match r9 {
            Ok(p) => p,
            Err(e) => {
                proof {
                    let cur = *self;
                    assert(s0.0.update_ok(cur.0, p0, batch_size, params@, r1));
                    assert(s0.1.update_ok(cur.1, p1, batch_size, params@, r2));
                    assert(s0.2.update_ok(cur.2, p2, batch_size, params@, r3));
                    assert(s0.3.update_ok(cur.3, p3, batch_size, params@, r4));
                    assert(s0.4.update_ok(cur.4, p4, batch_size, params@, r5));
                    assert(s0.5.update_ok(cur.5, p5, batch_size, params@, r6));
                    assert(s0.6.update_ok(cur.6, p6, batch_size, params@, r7));
                    assert(s0.7.update_ok(cur.7, p7, batch_size, params@, r8));
                    assert(s0.8.update_ok(cur.8, p8, batch_size, params@, r9));
                    assert(s0.update_ok(cur, pos, batch_size, params@, r9));
                }
                return Err(e);
            },
        };
        assert(p9 <= m + A::width() + B::width() + C::width() + D::width() + E::width() + F::width() + G::width() + H::width() + I::width());
        let r10 = self.9.update_batch_from_bind(p9, batch_size, params);
        let p10 = match r10 {
            Ok(p) => p,
            Err(e) => {
                proof {
                    let cur = *self;
                    assert(s0.0.update_ok(cur.0, p0, batch_size, params@, r1));
                    assert(s0.1.update_ok(cur.1, p1, batch_size, params@, r2));
                    assert(s0.2.update_ok(cur.2, p2, batch_size, params@, r3));
                    assert(s0.3.update_ok(cur.3, p3, batch_size, params@, r4));
                    assert(s0.4.update_ok(cur.4, p4, batch_size, params@, r5));
                    assert(s0.5.update_ok(cur.5, p5, batch_size, params@, r6));
                    assert(s0.6.update_ok(cur.6, p6, batch_size, params@, r7));
                    assert(s0.7.update_ok(cur.7, p7, batch_size, params@, r8));
                    assert(s0.8.update_ok(cur.8, p8, batch_size, params@, r9));
                    assert(s0.9.update_ok(cur.9, p9, batch_size, params@, r10));
                    assert(s0.update_ok(cur, pos, batch_size, params@, r10));
                }
                return Err(e);
            },
        };
        assert(p10 <= m + A::width() + B::width() + C::width() + D::width() + E::width() + F::width() + G::width() + H::width() + I::width() + J::width());
        let r11 = self.10.update_batch_from_bind(p10, batch_size, params);
        let p11 = match r11 {
            Ok(p) => p,
            Err(e) => {
                proof {
                    let cur = *self;
                    assert(s0.0.update_ok(cur.0, p0, batch_size, params@, r1));
                    assert(s0.1.update_ok(cur.1, p1, batch_size, params@, r2));
                    assert(s0.2.update_ok(cur.2, p2, batch_size, params@, r3));
                    assert(s0.3.update_ok(cur.3, p3, batch_size, params@, r4));
                    assert(s0.4.update_ok(cur.4, p4, batch_size, params@, r5));
                    assert(s0.5.update_ok(cur.5, p5, batch_size, params@, r6));
                    assert(s0.6.update_ok(cur.6, p6, batch_size, params@, r7));
                    assert(s0.7.update_ok(cur.7, p7, batch_size, params@, r8));
                    assert(s0.8.update_ok(cur.8, p8, batch_size, params@, r9));
                    assert(s0.9.update_ok(cur.9, p9, batch_size, params@, r10));
                    assert(s0.10.update_ok(cur.10, p10, batch_size, params@, r11));
                    assert(s0.update_ok(cur, pos, batch_size, params@, r11));
                }
                return Err(e);
            },
        };
        assert(p11 <= m + A::width() + B::width() + C::width() + D::width() + E::width() + F::width() + G::width() + H::width() + I::width() + J::width() + K::width());
        let r12 = self.11.update_batch_from_bind(p11, batch_size, params);
        proof {
                let cur = *self;
                assert(s0.0.update_ok(cur.0, p0, batch_size, params@, r1));
                assert(s0.1.update_ok(cur.1, p1, batch_size, params@, r2));
                assert(s0.2.update_ok(cur.2, p2, batch_size, params@, r3));
                assert(s0.3.update_ok(cur.3, p3, batch_size, params@, r4));
                assert(s0.4.update_ok(cur.4, p4, batch_size, params@, r5));
                assert(s0.5.update_ok(cur.5, p5, batch_size, params@, r6));
                assert(s0.6.update_ok(cur.6, p6, batch_size, params@, r7));
                assert(s0.7.update_ok(cur.7, p7, batch_size, params@, r8));
                assert(s0.8.update_ok(cur.8, p8, batch_size, params@, r9));
                assert(s0.9.update_ok(cur.9, p9, batch_size, params@, r10));
                assert(s0.10.update_ok(cur.10, p10, batch_size, params@, r11));
                assert(s0.11.update_ok(cur.11, p11, batch_size, params@, r12));
            assert(s0.update_ok(cur, pos, batch_size, params@, r12));
        }
        r12
    }
}

impl<A: ToBatchSql, B: ToBatchSql, C: ToBatchSql, D: ToBatchSql, E: ToBatchSql, F: ToBatchSql, G: ToBatchSql, H: ToBatchSql, I: ToBatchSql, J: ToBatchSql, K: ToBatchSql, L: ToBatchSql, M: ToBatchSql> ToBatchSql for (A, B, C, D, E, F, G, H, I, J, K, L, M) {
    open spec fn width() -> nat {
        A::width() + B::width() + C::width() + D::width() + E::width() + F::width() + G::width() + H::width() + I::width() + J::width() + K::width() + L::width() + M::width()
    }

    proof fn lemma_width() {
        A::lemma_width();
    }

    open spec fn bind_ok(&self, pos: usize, pre: BatchParamsView, post: BatchParamsView, r: Result<usize, BatchError>) -> bool {
        exists|m1: BatchParamsView, q1: Result<usize, BatchError>|
            #[trigger] self.0.bind_ok(pos, pre, m1, q1) && match q1 {
                Err(_) => post == m1 && r == q1,
                Ok(p1) => exists|m2: BatchParamsView, q2: Result<usize, BatchError>|
                    #[trigger] self.1.bind_ok(p1, m1, m2, q2) && match q2 {
                        Err(_) => post == m2 && r == q2,
                        Ok(p2) => exists|m3: BatchParamsView, q3: Result<usize, BatchError>|
                            #[trigger] self.2.bind_ok(p2, m2, m3, q3) && match q3 {
                                Err(_) => post == m3 && r == q3,
                                Ok(p3) => exists|m4: BatchParamsView, q4: Result<usize, BatchError>|
                                    #[trigger] self.3.bind_ok(p3, m3, m4, q4) && match q4 {
                                        Err(_) => post == m4 && r == q4,
                                        Ok(p4) => exists|m5: BatchParamsView, q5: Result<usize, BatchError>|
                                            #[trigger] self.4.bind_ok(p4, m4, m5, q5) && match q5 {
                                                Err(_) => post == m5 && r == q5,
                                                Ok(p5) => exists|m6: BatchParamsView, q6: Result<usize, BatchError>|
                                                    #[trigger] self.5.bind_ok(p5, m5, m6, q6) && match q6 {
                                                        Err(_) => post == m6 && r == q6,
                                                        Ok(p6) => exists|m7: BatchParamsView, q7: Result<usize, BatchError>|
                                                            #[trigger] self.6.bind_ok(p6, m6, m7, q7) && match q7 {
                                                                Err(_) => post == m7 && r == q7,
                                                                Ok(p7) => exists|m8: BatchParamsView, q8: Result<usize, BatchError>|
                                                                    #[trigger] self.7.bind_ok(p7, m7, m8, q8) && match q8 {
                                                                        Err(_) => post == m8 && r == q8,
                                                                        Ok(p8) => exists|m9: BatchParamsView, q9: Result<usize, BatchError>|
                                                                            #[trigger] self.8.bind_ok(p8, m8, m9, q9) && match q9 {
                                                                                Err(_) => post == m9 && r == q9,
                                                                                Ok(p9) => exists|m10: BatchParamsView, q10: Result<usize, BatchError>|
                                                                                    #[trigger] self.9.bind_ok(p9, m9, m10, q10) && match q10 {
                                                                                        Err(_) => post == m10 && r == q10,
                                                                                        Ok(p10) => exists|m11: BatchParamsView, q11: Result<usize, BatchError>|
                                                                                            #[trigger] self.10.bind_ok(p10, m10, m11, q11) && match q11 {
                                                                                                Err(_) => post == m11 && r == q11,
                                                                                                Ok(p11) => exists|m12: BatchParamsView, q12: Result<usize, BatchError>|
                                                                                                    #[trigger] self.11.bind_ok(p11, m11, m12, q12) && match q12 {
                                                                                                        Err(_) => post == m12 && r == q12,
                                                                                                        Ok(p12) => self.12.bind_ok(p12, m12, post, r),
                                                                                                    },
                                                                                            },
                                                                                    },
                                                                            },
                                                                    },
                                                            },
                                                    },
                                            },
                                    },
                            },
                    },
            }
    }

    open spec fn update_ok(&self, after: Self, pos: usize, batch_size: usize, params: BatchParamsView, r: Result<usize, BatchError>) -> bool {
        exists|q1: Result<usize, BatchError>|
            #[trigger] self.0.update_ok(after.0, pos, batch_size, params, q1) && match q1 {
                Err(_) => after.1 == self.1 && after.2 == self.2 && after.3 == self.3 && after.4 == self.4 && after.5 == self.5 && after.6 == self.6 && after.7 == self.7 && after.8 == self.8 && after.9 == self.9 && after.10 == self.10 && after.11 == self.11 && after.12 == self.12 && r == q1,
                Ok(p1) => exists|q2: Result<usize, BatchError>|
                    #[trigger] self.1.update_ok(after.1, p1, batch_size, params, q2) && match q2 {
                        Err(_) => after.2 == self.2 && after.3 == self.3 && after.4 == self.4 && after.5 == self.5 && after.6 == self.6 && after.7 == self.7 && after.8 == self.8 && after.9 == self.9 && after.10 == self.10 && after.11 == self.11 && after.12 == self.12 && r == q2,
                        Ok(p2) => exists|q3: Result<usize, BatchError>|
                            #[trigger] self.2.update_ok(after.2, p2, batch_size, params, q3) && match q3 {
                                Err(_) => after.3 == self.3 && after.4 == self.4 && after.5 == self.5 && after.6 == self.6 && after.7 == self.7 && after.8 == self.8 && after.9 == self.9 && after.10 == self.10 && after.11 == self.11 && after.12 == self.12 && r == q3,
                                Ok(p3) => exists|q4: Result<usize, BatchError>|
                                    #[trigger] self.3.update_ok(after.3, p3, batch_size, params, q4) && match q4 {
                                        Err(_) => after.4 == self.4 && after.5 == self.5 && after.6 == self.6 && after.7 == self.7 && after.8 == self.8 && after.9 == self.9 && after.10 == self.10 && after.11 == self.11 && after.12 == self.12 && r == q4,
                                        Ok(p4) => exists|q5: Result<usize, BatchError>|
                                            #[trigger] self.4.update_ok(after.4, p4, batch_size, params, q5) && match q5 {
                                                Err(_) => after.5 == self.5 && after.6 == self.6 && after.7 == self.7 && after.8 == self.8 && after.9 == self.9 && after.10 == self.10 && after.11 == self.11 && after.12 == self.12 && r == q5,
                                                Ok(p5) => exists|q6: Result<usize, BatchError>|
                                                    #[trigger] self.5.update_ok(after.5, p5, batch_size, params, q6) && match q6 {
                                                        Err(_) => after.6 == self.6 && after.7 == self.7 && after.8 == self.8 && after.9 == self.9 && after.10 == self.10 && after.11 == self.11 && after.12 == self.12 && r == q6,
                                                        Ok(p6) => exists|q7: Result<usize, BatchError>|
                                                            #[trigger] self.6.update_ok(after.6, p6, batch_size, params, q7) && match q7 {
                                                                Err(_) => after.7 == self.7 && after.8 == self.8 && after.9 == self.9 && after.10 == self.10 && after.11 == self.11 && after.12 == self.12 && r == q7,
                                                                Ok(p7) => exists|q8: Result<usize, BatchError>|
                                                                    #[trigger] self.7.update_ok(after.7, p7, batch_size, params, q8) && match q8 {
                                                                        Err(_) => after.8 == self.8 && after.9 == self.9 && after.10 == self.10 && after.11 == self.11 && after.12 == self.12 && r == q8,
                                                                        Ok(p8) => exists|q9: Result<usize, BatchError>|
                                                                            #[trigger] self.8.update_ok(after.8, p8, batch_size, params, q9) && match q9 {
                                                                                Err(_) => after.9 == self.9 && after.10 == self.10 && after.11 == self.11 && after.12 == self.12 && r == q9,
                                                                                Ok(p9) => exists|q10: Result<usize, BatchError>|
                                                                                    #[trigger] self.9.update_ok(after.9, p9, batch_size, params, q10) && match q10 {
                                                                                        Err(_) => after.10 == self.10 && after.11 == self.11 && after.12 == self.12 && r == q10,
                                                                                        Ok(p10) => exists|q11: Result<usize, BatchError>|
                                                                                            #[trigger] self.10.update_ok(after.10, p10, batch_size, params, q11) && match q11 {
                                                                                                Err(_) => after.11 == self.11 && after.12 == self.12 && r == q11,
                                                                                                Ok(p11) => exists|q12: Result<usize, BatchError>|
                                                                                                    #[trigger] self.11.update_ok(after.11, p11, batch_size, params, q12) && match q12 {
                                                                                                        Err(_) => after.12 == self.12 && r == q12,
                                                                                                        Ok(p12) => self.12.update_ok(after.12, p12, batch_size, params, r),
                                                                                                    },
                                                                                            },
                                                                                    },
                                                                            },
                                                                    },
                                                            },
                                                    },
                                            },
                                    },
                            },
                    },
            }
    }

    /// Binds the arguments one after the other, each from the position the
    /// one before it gives back; the first refusal ends it.
    fn bind_batch_to(&mut self, pos: usize, batch_size: usize, params: &mut BatchParams) -> (r: Result<usize, BatchError>) {
        let ghost s0 = *self;
        let ghost v0 = params@;
        let ghost c = v0.count();
        let ghost m = if pos >= c { pos as nat } else { c };
        proof {
            assert(next_bound(pos, c, Self::width()) == m + Self::width());
        }
        let p0 = pos;
        let r1 = self.0.bind_batch_to(p0, batch_size, params);
        let ghost v1 = params@;
        let p1 = match r1 {
            Ok(p) => p,
            Err(e) => {
                proof {
                    assert(s0.0.bind_ok(p0, v0, v1, r1));
                    assert(s0.bind_ok(pos, v0, v1, r1));
                }
                return Err(e);
            },
        };
        assert(v1.count() == c && p1 <= m + A::width());
        let r2 = self.1.bind_batch_to(p1, batch_size, params);
        let ghost v2 = params@;
        let p2 = match r2 {
            Ok(p) => p,
            Err(e) => {
                proof {
                    assert(s0.0.bind_ok(p0, v0, v1, r1));
                    assert(s0.1.bind_ok(p1, v1, v2, r2));
                    assert(s0.bind_ok(pos, v0, v2, r2));
                }
                return Err(e);
            },
        };
        assert(v2.count() == c && p2 <= m + A::width() + B::width());
        let r3 = self.2.bind_batch_to(p2, batch_size, params);
        let ghost v3 = params@;
        let p3 = match r3 {
            Ok(p) => p,
            Err(e) => {
                proof {
                    assert(s0.0.bind_ok(p0, v0, v1, r1));
                    assert(s0.1.bind_ok(p1, v1, v2, r2));
                    assert(s0.2.bind_ok(p2, v2, v3, r3));
                    assert(s0.bind_ok(pos, v0, v3, r3));
                }
                return Err(e);
            },
        };
        assert(v3.count() == c && p3 <= m + A::width() + B::width() + C::width());
        let r4 = self.3.bind_batch_to(p3, batch_size, params);
        let ghost v4 = params@;
        let p4 = match r4 {
            Ok(p) => p,
            Err(e) => {
                proof {
                    assert(s0.0.bind_ok(p0, v0, v1, r1));
                    assert(s0.1.bind_ok(p1, v1, v2, r2));
                    assert(s0.2.bind_ok(p2, v2, v3, r3));
                    assert(s0.3.bind_ok(p3, v3, v4, r4));
                    assert(s0.bind_ok(pos, v0, v4, r4));
                }
                return Err(e);
            },
        };
        assert(v4.count() == c && p4 <= m + A::width() + B::width() + C::width() + D::width());
        let r5 = self.4.bind_batch_to(p4, batch_size, params);
        let ghost v5 = params@;
        let p5 = match r5 {
            Ok(p) => p,
            Err(e) => {
                proof {
                    assert(s0.0.bind_ok(p0, v0, v1, r1));
                    assert(s0.1.bind_ok(p1, v1, v2, r2));
                    assert(s0.2.bind_ok(p2, v2, v3, r3));
                    assert(s0.3.bind_ok(p3, v3, v4, r4));
                    assert(s0.4.bind_ok(p4, v4, v5, r5));
                    assert(s0.bind_ok(pos, v0, v5, r5));
                }
                return Err(e);
            },
        };
        assert(v5.count() == c && p5 <= m + A::width() + B::width() + C::width() + D::width() + E::width());
        let r6 = self.5.bind_batch_to(p5, batch_size, params);
        let ghost v6 = params@;
        let p6 = match r6 {
            Ok(p) => p,
            Err(e) => {
                proof {
                    assert(s0.0.bind_ok(p0, v0, v1, r1));
                    assert(s0.1.bind_ok(p1, v1, v2, r2));
                    assert(s0.2.bind_ok(p2, v2, v3, r3));
                    assert(s0.3.bind_ok(p3, v3, v4, r4));
                    assert(s0.4.bind_ok(p4, v4, v5, r5));
                    assert(s0.5.bind_ok(p5, v5, v6, r6));
                    assert(s0.bind_ok(pos, v0, v6, r6));
                }
                return Err(e);
            },
        };
        assert(v6.count() == c && p6 <= m + A::width() + B::width() + C::width() + D::width() + E::width() + F::width());
        let r7 = self.6.bind_batch_to(p6, batch_size, params);
        let ghost v7 = params@;
        let p7 = match r7 {
            Ok(p) => p,
            Err(e) => {
                proof {
                    assert(s0.0.bind_ok(p0, v0, v1, r1));
                    assert(s0.1.bind_ok(p1, v1, v2, r2));
                    assert(s0.2.bind_ok(p2, v2, v3, r3));
                    assert(s0.3.bind_ok(p3, v3, v4, r4));
                    assert(s0.4.bind_ok(p4, v4, v5, r5));
                    assert(s0.5.bind_ok(p5, v5, v6, r6));
                    assert(s0.6.bind_ok(p6, v6, v7, r7));
                    assert(s0.bind_ok(pos, v0, v7, r7));
                }
                return Err(e);
            },
        };
        assert(v7.count() == c && p7 <= m + A::width() + B::width() + C::width() + D::width() + E::width() + F::width() + G::width());
        let r8 = self.7.bind_batch_to(p7, batch_size, params);
        let ghost v8 = params@;
        let p8 = match r8 {
            Ok(p) => p,
            Err(e) => {
                proof {
                    assert(s0.0.bind_ok(p0, v0, v1, r1));
                    assert(s0.1.bind_ok(p1, v1, v2, r2));
                    assert(s0.2.bind_ok(p2, v2, v3, r3));
                    assert(s0.3.bind_ok(p3, v3, v4, r4));
                    assert(s0.4.bind_ok(p4, v4, v5, r5));
                    assert(s0.5.bind_ok(p5, v5, v6, r6));
                    assert(s0.6.bind_ok(p6, v6, v7, r7));
                    assert(s0.7.bind_ok(p7, v7, v8, r8));
                    assert(s0.bind_ok(pos, v0, v8, r8));
                }
                return Err(e);
            },
        };
        assert(v8.count() == c && p8 <= m + A::width() + B::width() + C::width() + D::width() + E::width() + F::width() + G::width() + H::width());
        let r9 = self.8.bind_batch_to(p8, batch_size, params);
        let ghost v9 = params@;
        let p9 = match r9 {
            Ok(p) => p,
            Err(e) => {
                proof {
                    assert(s0.0.bind_ok(p0, v0, v1, r1));
                    assert(s0.1.bind_ok(p1, v1, v2, r2));
                    assert(s0.2.bind_ok(p2, v2, v3, r3));
                    assert(s0.3.bind_ok(p3, v3, v4, r4));
                    assert(s0.4.bind_ok(p4, v4, v5, r5));
                    assert(s0.5.bind_ok(p5, v5, v6, r6));
                    assert(s0.6.bind_ok(p6, v6, v7, r7));
                    assert(s0.7.bind_ok(p7, v7, v8, r8));
                    assert(s0.8.bind_ok(p8, v8, v9, r9));
                    assert(s0.bind_ok(pos, v0, v9, r9));
                }
                return Err(e);
            },
        };
        assert(v9.count() == c && p9 <= m + A::width() + B::width() + C::width() + D::width() + E::width() + F::width() + G::width() + H::width() + I::width());
        let r10 = self.9.bind_batch_to(p9, batch_size, params);
        let ghost v10 = params@;
        let p10 = match r10 {
            Ok(p) => p,
            Err(e) => {
                proof {
                    assert(s0.0.bind_ok(p0, v0, v1, r1));
                    assert(s0.1.bind_ok(p1, v1, v2, r2));
                    assert(s0.2.bind_ok(p2, v2, v3, r3));
                    assert(s0.3.bind_ok(p3, v3, v4, r4));
                    assert(s0.4.bind_ok(p4, v4, v5, r5));
                    assert(s0.5.bind_ok(p5, v5, v6, r6));
                    assert(s0.6.bind_ok(p6, v6, v7, r7));
                    assert(s0.7.bind_ok(p7, v7, v8, r8));
                    assert(s0.8.bind_ok(p8, v8, v9, r9));
                    assert(s0.9.bind_ok(p9, v9, v10, r10));
                    assert(s0.bind_ok(pos, v0, v10, r10));
                }
                return Err(e);
            },
        };
        assert(v10.count() == c && p10 <= m + A::width() + B::width() + C::width() + D::width() + E::width() + F::width() + G::width() + H::width() + I::width() + J::width());
        let r11 = self.10.bind_batch_to(p10, batch_size, params);
        let ghost v11 = params@;
        let p11 = match r11 {
            Ok(p) => p,
            Err(e) => {
                proof {
                    assert(s0.0.bind_ok(p0, v0, v1, r1));
                    assert(s0.1.bind_ok(p1, v1, v2, r2));
                    assert(s0.2.bind_ok(p2, v2, v3, r3));
                    assert(s0.3.bind_ok(p3, v3, v4, r4));
                    assert(s0.4.bind_ok(p4, v4, v5, r5));
                    assert(s0.5.bind_ok(p5, v5, v6, r6));
                    assert(s0.6.bind_ok(p6, v6, v7, r7));
                    assert(s0.7.bind_ok(p7, v7, v8, r8));
                    assert(s0.8.bind_ok(p8, v8, v9, r9));
                    assert(s0.9.bind_ok(p9, v9, v10, r10));
                    assert(s0.10.bind_ok(p10, v10, v11, r11));
                    assert(s0.bind_ok(pos, v0, v11, r11));
                }
                return Err(e);
            },
        };
        assert(v11.count() == c && p11 <= m + A::width() + B::width() + C::width() + D::width() + E::width() + F::width() + G::width() + H::width() + I::width() + J::width() + K::width());
        let r12 = self.11.bind_batch_to(p11, batch_size, params);
        let ghost v12 = params@;
        let p12 = match r12 {
            Ok(p) => p,
            Err(e) => {
                proof {
                    assert(s0.0.bind_ok(p0, v0, v1, r1));
                    assert(s0.1.bind_ok(p1, v1, v2, r2));
                    assert(s0.2.bind_ok(p2, v2, v3, r3));
                    assert(s0.3.bind_ok(p3, v3, v4, r4));
                    assert(s0.4.bind_ok(p4, v4, v5, r5));
                    assert(s0.5.bind_ok(p5, v5, v6, r6));
                    assert(s0.6.bind_ok(p6, v6, v7, r7));
                    assert(s0.7.bind_ok(p7, v7, v8, r8));
                    assert(s0.8.bind_ok(p8, v8, v9, r9));
                    assert(s0.9.bind_ok(p9, v9, v10, r10));
                    assert(s0.10.bind_ok(p10, v10, v11, r11));
                    assert(s0.11.bind_ok(p11, v11, v12, r12));
                    assert(s0.bind_ok(pos, v0, v12, r12));
                }
                return Err(e);
            },
        };
        assert(v12.count() == c && p12 <= m + A::width() + B::width() + C::width() + D::width() + E::width() + F::width() + G::width() + H::width() + I::width() + J::width() + K::width() + L::width());
        let r13 = self.12.bind_batch_to(p12, batch_size, params);
        let ghost v13 = params@;
        proof {
            assert(s0.0.bind_ok(p0, v0, v1, r1));
            assert(s0.1.bind_ok(p1, v1, v2, r2));
            assert(s0.2.bind_ok(p2, v2, v3, r3));
            assert(s0.3.bind_ok(p3, v3, v4, r4));
            assert(s0.4.bind_ok(p4, v4, v5, r5));
            assert(s0.5.bind_ok(p5, v5, v6, r6));
            assert(s0.6.bind_ok(p6, v6, v7, r7));
            assert(s0.7.bind_ok(p7, v7, v8, r8));
            assert(s0.8.bind_ok(p8, v8, v9, r9));
            assert(s0.9.bind_ok(p9, v9, v10, r10));
            assert(s0.10.bind_ok(p10, v10, v11, r11));
            assert(s0.11.bind_ok(p11, v11, v12, r12));
            assert(s0.12.bind_ok(p12, v12, v13, r13));
            assert(s0.bind_ok(pos, v0, v13, r13));
        }
        r13
    }

    /// Updates the arguments one after the other; the first refusal ends it.
    fn update_batch_from_bind(&mut self, pos: usize, batch_size: usize, params: &BatchParams) -> (r: Result<usize, BatchError>) {
        let ghost s0 = *self;
        let ghost c = params@.count();
        let ghost m = if pos >= c { pos as nat } else { c };
        proof {
            assert(next_bound(pos, c, Self::width()) == m + Self::width());
        }
        let p0 = pos;
        let r1 = self.0.update_batch_from_bind(p0, batch_size, params);
        let p1 = match r1 {
            Ok(p) => p,
            Err(e) => {
                proof {
                    let cur = *self;
                    assert(s0.0.update_ok(cur.0, p0, batch_size, params@, r1));
                    assert(s0.update_ok(cur, pos, batch_size, params@, r1));
                }
                return Err(e);
            },
        };
        assert(p1 <= m + A::width());
        let r2 = self.1.update_batch_from_bind(p1, batch_size, params);
        let p2 = match r2 {
            Ok(p) => p,
            Err(e) => {
                proof {
                    let cur = *self;
                    assert(s0.0.update_ok(cur.0, p0, batch_size, params@, r1));
                    assert(s0.1.update_ok(cur.1, p1, batch_size, params@, r2));
                    assert(s0.update_ok(cur, pos, batch_size, params@, r2));
                }
                return Err(e);
            },
        };
        assert(p2 <= m + A::width() + B::width());
        let r3 = self.2.update_batch_from_bind(p2, batch_size, params);
        let p3 = match r3 {
            Ok(p) => p,
            Err(e) => {
                proof {
                    let cur = *self;
                    assert(s0.0.update_ok(cur.0, p0, batch_size, params@, r1));
                    assert(s0.1.update_ok(cur.1, p1, batch_size, params@, r2));
                    assert(s0.2.update_ok(cur.2, p2, batch_size, params@, r3));
                    assert(s0.update_ok(cur, pos, batch_size, params@, r3));
                }
                return Err(e);
            },
        };
        assert(p3 <= m + A::width() + B::width() + C::width());
        let r4 = self.3.update_batch_from_bind(p3, batch_size, params);
        let p4 = match r4 {
            Ok(p) => p,
            Err(e) => {
                proof {
                    let cur = *self;
                    assert(s0.0.update_ok(cur.0, p0, batch_size, params@, r1));
                    assert(s0.1.update_ok(cur.1, p1, batch_size, params@, r2));
                    assert(s0.2.update_ok(cur.2, p2, batch_size, params@, r3));
                    assert(s0.3.update_ok(cur.3, p3, batch_size, params@, r4));
                    assert(s0.update_ok(cur, pos, batch_size, params@, r4));
                }
                return Err(e);
            },
        };
        assert(p4 <= m + A::width() + B::width() + C::width() + D::width());
        let r5 = self.4.update_batch_from_bind(p4, batch_size, params);
        let p5 = match r5 {
            Ok(p) => p,
            Err(e) => {
                proof {
                    let cur = *self;
                    assert(s0.0.update_ok(cur.0, p0, batch_size, params@, r1));
                    assert(s0.1.update_ok(cur.1, p1, batch_size, params@, r2));
                    assert(s0.2.update_ok(cur.2, p2, batch_size, params@, r3));
                    assert(s0.3.update_ok(cur.3, p3, batch_size, params@, r4));
                    assert(s0.4.update_ok(cur.4, p4, batch_size, params@, r5));
                    assert(s0.update_ok(cur, pos, batch_size, params@, r5));
                }
                return Err(e);
            },
        };
        assert(p5 <= m + A::width() + B::width() + C::width() + D::width() + E::width());
        let r6 = self.5.update_batch_from_bind(p5, batch_size, params);
        let p6 = match r6 {
            Ok(p) => p,
            Err(e) => {
                proof {
                    let cur = *self;
                    assert(s0.0.update_ok(cur.0, p0, batch_size, params@, r1));
                    assert(s0.1.update_ok(cur.1, p1, batch_size, params@, r2));
                    assert(s0.2.update_ok(cur.2, p2, batch_size, params@, r3));
                    assert(s0.3.update_ok(cur.3, p3, batch_size, params@, r4));
                    assert(s0.4.update_ok(cur.4, p4, batch_size, params@, r5));
                    assert(s0.5.update_ok(cur.5, p5, batch_size, params@, r6));
                    assert(s0.update_ok(cur, pos, batch_size, params@, r6));
                }
                return Err(e);
            },
        };
        assert(p6 <= m + A::width() + B::width() + C::width() + D::width() + E::width() + F::width());
        let r7 = self.6.update_batch_from_bind(p6, batch_size, params);
        let p7 = match r7 {
            Ok(p) => p,
            Err(e) => {
                proof {
                    let cur = *self;
                    assert(s0.0.update_ok(cur.0, p0, batch_size, params@, r1));
                    assert(s0.1.update_ok(cur.1, p1, batch_size, params@, r2));
                    assert(s0.2.update_ok(cur.2, p2, batch_size, params@, r3));
                    assert(s0.3.update_ok(cur.3, p3, batch_size, params@, r4));
                    assert(s0.4.update_ok(cur.4, p4, batch_size, params@, r5));
                    assert(s0.5.update_ok(cur.5, p5, batch_size, params@, r6));
                    assert(s0.6.update_ok(cur.6, p6, batch_size, params@, r7));
                    assert(s0.update_ok(cur, pos, batch_size, params@, r7));
                }
                return Err(e);
            },
        };
        assert(p7 <= m + A::width() + B::width() + C::width() + D::width() + E::width() + F::width() + G::width());
        let r8 = self.7.update_batch_from_bind(p7, batch_size, params);
        let p8 = match r8 {
            Ok(p) => p,
            Err(e) => {
                proof {
                    let cur = *self;
                    assert(s0.0.update_ok(cur.0, p0, batch_size, params@, r1));
                    assert(s0.1.update_ok(cur.1, p1, batch_size, params@, r2));
                    assert(s0.2.update_ok(cur.2, p2, batch_size, params@, r3));
                    assert(s0.3.update_ok(cur.3, p3, batch_size, params@, r4));
                    assert(s0.4.update_ok(cur.4, p4, batch_size, params@, r5));
                    assert(s0.5.update_ok(cur.5, p5, batch_size, params@, r6));
                    assert(s0.6.update_ok(cur.6, p6, batch_size, params@, r7));
                    assert(s0.7.update_ok(cur.7, p7, batch_size, params@, r8));
                    assert(s0.update_ok(cur, pos, batch_size, params@, r8));
                }
                return Err(e);
            },
        };
        assert(p8 <= m + A::width() + B::width() + C::width() + D::width() + E::width() + F::width() + G::width() + H::width());
        let r9 = self.8.update_batch_from_bind(p8, batch_size, params);
        let p9 = match r9 {
            Ok(p) => p,
            Err(e) => {
                proof {
                    let cur = *self;
                    assert(s0.0.update_ok(cur.0, p0, batch_size, params@, r1));
                    assert(s0.1.update_ok(cur.1, p1, batch_size, params@, r2));
                    assert(s0.2.update_ok(cur.2, p2, batch_size, params@, r3));
                    assert(s0.3.update_ok(cur.3, p3, batch_size, params@, r4));
                    assert(s0.4.update_ok(cur.4, p4, batch_size, params@, r5));
                    assert(s0.5.update_ok(cur.5, p5, batch_size, params@, r6));
                    assert(s0.6.update_ok(cur.6, p6, batch_size, params@, r7));
                    assert(s0.7.update_ok(cur.7, p7, batch_size, params@, r8));
                    assert(s0.8.update_ok(cur.8, p8, batch_size, params@, r9));
                    assert(s0.update_ok(cur, pos, batch_size, params@, r9));
                }
                return Err(e);
            },
        };
        assert(p9 <= m + A::width() + B::width() + C::width() + D::width() + E::width() + F::width() + G::width() + H::width() + I::width());
        let r10 = self.9.update_batch_from_bind(p9, batch_size, params);
        let p10 = match r10 {
            Ok(p) => p,
            Err(e) => {
                proof {
                    let cur = *self;
                    assert(s0.0.update_ok(cur.0, p0, batch_size, params@, r1));
                    assert(s0.1.update_ok(cur.1, p1, batch_size, params@, r2));
                    assert(s0.2.update_ok(cur.2, p2, batch_size, params@, r3));
                    assert(s0.3.update_ok(cur.3, p3, batch_size, params@, r4));
                    assert(s0.4.update_ok(cur.4, p4, batch_size, params@, r5));
                    assert(s0.5.update_ok(cur.5, p5, batch_size, params@, r6));
                    assert(s0.6.update_ok(cur.6, p6, batch_size, params@, r7));
                    assert(s0.7.update_ok(cur.7, p7, batch_size, params@, r8));
                    assert(s0.8.update_ok(cur.8, p8, batch_size, params@, r9));
                    assert(s0.9.update_ok(cur.9, p9, batch_size, params@, r10));
                    assert(s0.update_ok(cur, pos, batch_size, params@, r10));
                }
                return Err(e);
            },
        };
        assert(p10 <= m + A::width() + B::width() + C::width() + D::width() + E::width() + F::width() + G::width() + H::width() + I::width() + J::width());
        let r11 = self.10.update_batch_from_bind(p10, batch_size, params);
        let p11 = match r11 {
            Ok(p) => p,
            Err(e) => {
                proof {
                    let cur = *self;
                    assert(s0.0.update_ok(cur.0, p0, batch_size, params@, r1));
                    assert(s0.1.update_ok(cur.1, p1, batch_size, params@, r2));
                    assert(s0.2.update_ok(cur.2, p2, batch_size, params@, r3));
                    assert(s0.3.update_ok(cur.3, p3, batch_size, params@, r4));
                    assert(s0.4.update_ok(cur.4, p4, batch_size, params@, r5));
                    assert(s0.5.update_ok(cur.5, p5, batch_size, params@, r6));
                    assert(s0.6.update_ok(cur.6, p6, batch_size, params@, r7));
                    assert(s0.7.update_ok(cur.7, p7, batch_size, params@, r8));
                    assert(s0.8.update_ok(cur.8, p8, batch_size, params@, r9));
                    assert(s0.9.update_ok(cur.9, p9, batch_size, params@, r10));
                    assert(s0.10.update_ok(cur.10, p10, batch_size, params@, r11));
                    assert(s0.update_ok(cur, pos, batch_size, params@, r11));
                }
                return Err(e);
            },
        };
        assert(p11 <= m + A::width() + B::width() + C::width() + D::width() + E::width() + F::width() + G::width() + H::width() + I::width() + J::width() + K::width());
        let r12 = self.11.update_batch_from_bind(p11, batch_size, params);
        let p12 = match r12 {
            Ok(p) => p,
            Err(e) => {
                proof {
                    let cur = *self;
                    assert(s0.0.update_ok(cur.0, p0, batch_size, params@, r1));
                    assert(s0.1.update_ok(cur.1, p1, batch_size, params@, r2));
                    assert(s0.2.update_ok(cur.2, p2, batch_size, params@, r3));
                    assert(s0.3.update_ok(cur.3, p3, batch_size, params@, r4));
                    assert(s0.4.update_ok(cur.4, p4, batch_size, params@, r5));
                    assert(s0.5.update_ok(cur.5, p5, batch_size, params@, r6));
                    assert(s0.6.update_ok(cur.6, p6, batch_size, params@, r7));
                    assert(s0.7.update_ok(cur.7, p7, batch_size, params@, r8));
                    assert(s0.8.update_ok(cur.8, p8, batch_size, params@, r9));
                    assert(s0.9.update_ok(cur.9, p9, batch_size, params@, r10));
                    assert(s0.10.update_ok(cur.10, p10, batch_size, params@, r11));
                    assert(s0.11.update_ok(cur.11, p11, batch_size, params@, r12));
                    assert(s0.update_ok(cur, pos, batch_size, params@, r12));
                }
                return Err(e);
            },
        };
        assert(p12 <= m + A::width() + B::width() + C::width() + D::width() + E::width() + F::width() + G::width() + H::width() + I::width() + J::width() + K::width() + L::width());
        let r13 = self.12.update_batch_from_bind(p12, batch_size, params);
        proof {
                let cur = *self;
                assert(s0.0.update_ok(cur.0, p0, batch_size, params@, r1));
                assert(s0.1.update_ok(cur.1, p1, batch_size, params@, r2));
                assert(s0.2.update_ok(cur.2, p2, batch_size, params@, r3));
                assert(s0.3.update_ok(cur.3, p3, batch_size, params@, r4));
                assert(s0.4.update_ok(cur.4, p4, batch_size, params@, r5));
                assert(s0.5.update_ok(cur.5, p5, batch_size, params@, r6));
                assert(s0.6.update_ok(cur.6, p6, batch_size, params@, r7));
                assert(s0.7.update_ok(cur.7, p7, batch_size, params@, r8));
                assert(s0.8.update_ok(cur.8, p8, batch_size, params@, r9));
                assert(s0.9.update_ok(cur.9, p9, batch_size, params@, r10));
                assert(s0.10.update_ok(cur.10, p10, batch_size, params@, r11));
                assert(s0.11.update_ok(cur.11, p11, batch_size, params@, r12));
                assert(s0.12.update_ok(cur.12, p12, batch_size, params@, r13));
            assert(s0.update_ok(cur, pos, batch_size, params@, r13));
        }
        r13
    }
}

impl<A: ToBatchSql, B: ToBatchSql, C: ToBatchSql, D: ToBatchSql, E: ToBatchSql, F: ToBatchSql, G: ToBatchSql, H: ToBatchSql, I: ToBatchSql, J: ToBatchSql, K: ToBatchSql, L: ToBatchSql, M: ToBatchSql, N: ToBatchSql> ToBatchSql for (A, B, C, D, E, F, G, H, I, J, K, L, M, N) {
    open spec fn width() -> nat {
        A::width() + B::width() + C::width() + D::width() + E::width() + F::width() + G::width() + H::width() + I::width() + J::width() + K::width() + L::width() + M::width() + N::width()
    }

    proof fn lemma_width() {
        A::lemma_width();
    }

    open spec fn bind_ok(&self, pos: usize, pre: BatchParamsView, post: BatchParamsView, r: Result<usize, BatchError>) -> bool {
        exists|m1: BatchParamsView, q1: Result<usize, BatchError>|
            #[trigger] self.0.bind_ok(pos, pre, m1, q1) && match q1 {
                Err(_) => post == m1 && r == q1,
                Ok(p1) => exists|m2: BatchParamsView, q2: Result<usize, BatchError>|
                    #[trigger] self.1.bind_ok(p1, m1, m2, q2) && match q2 {
                        Err(_) => post == m2 && r == q2,
                        Ok(p2) => exists|m3: BatchParamsView, q3: Result<usize, BatchError>|
                            #[trigger] self.2.bind_ok(p2, m2, m3, q3) && match q3 {
                                Err(_) => post == m3 && r == q3,
                                Ok(p3) => exists|m4: BatchParamsView, q4: Result<usize, BatchError>|
                                    #[trigger] self.3.bind_ok(p3, m3, m4, q4) && match q4 {
                                        Err(_) => post == m4 && r == q4,
                                        Ok(p4) => exists|m5: BatchParamsView, q5: Result<usize, BatchError>|
                                            #[trigger] self.4.bind_ok(p4, m4, m5, q5) && match q5 {
                                                Err(_) => post == m5 && r == q5,
                                                Ok(p5) => exists|m6: BatchParamsView, q6: Result<usize, BatchError>|
                                                    #[trigger] self.5.bind_ok(p5, m5, m6, q6) && match q6 {
                                                        Err(_) => post == m6 && r == q6,
                                                        Ok(p6) => exists|m7: BatchParamsView, q7: Result<usize, BatchError>|
                                                            #[trigger] self.6.bind_ok(p6, m6, m7, q7) && match q7 {
                                                                Err(_) => post == m7 && r == q7,
                                                                Ok(p7) => exists|m8: BatchParamsView, q8: Result<usize, BatchError>|
                                                                    #[trigger] self.7.bind_ok(p7, m7, m8, q8) && match q8 {
                                                                        Err(_) => post == m8 && r == q8,
                                                                        Ok(p8) => exists|m9: BatchParamsView, q9: Result<usize, BatchError>|
                                                                            #[trigger] self.8.bind_ok(p8, m8, m9, q9) && match q9 {
                                                                                Err(_) => post == m9 && r == q9,
                                                                                Ok(p9) => exists|m10: BatchParamsView, q10: Result<usize, BatchError>|
                                                                                    #[trigger] self.9.bind_ok(p9, m9, m10, q10) && match q10 {
                                                                                        Err(_) => post == m10 && r == q10,
                                                                                        Ok(p10) => exists|m11: BatchParamsView, q11: Result<usize, BatchError>|
                                                                                            #[trigger] self.10.bind_ok(p10, m10, m11, q11) && match q11 {
                                                                                                Err(_) => post == m11 && r == q11,
                                                                                                Ok(p11) => exists|m12: BatchParamsView, q12: Result<usize, BatchError>|
                                                                                                    #[trigger] self.11.bind_ok(p11, m11, m12, q12) && match q12 {
                                                                                                        Err(_) => post == m12 && r == q12,
                                                                                                        Ok(p12) => exists|m13: BatchParamsView, q13: Result<usize, BatchError>|
                                                                                                            #[trigger] self.12.bind_ok(p12, m12, m13, q13) && match q13 {
                                                                                                                Err(_) => post == m13 && r == q13,
                                                                                                                Ok(p13) => self.13.bind_ok(p13, m13, post, r),
                                                                                                            },
                                                                                                    },
                                                                                            },
                                                                                    },
                                                                            },
                                                                    },
                                                            },
                                                    },
                                            },
                                    },
                            },
                    },
            }
    }

    open spec fn update_ok(&self, after: Self, pos: usize, batch_size: usize, params: BatchParamsView, r: Result<usize, BatchError>) -> bool {
        exists|q1: Result<usize, BatchError>|
            #[trigger] self.0.update_ok(after.0, pos, batch_size, params, q1) && match q1 {
                Err(_) => after.1 == self.1 && after.2 == self.2 && after.3 == self.3 && after.4 == self.4 && after.5 == self.5 && after.6 == self.6 && after.7 == self.7 && after.8 == self.8 && after.9 == self.9 && after.10 == self.10 && after.11 == self.11 && after.12 == self.12 && after.13 == self.13 && r == q1,
                Ok(p1) => exists|q2: Result<usize, BatchError>|
                    #[trigger] self.1.update_ok(after.1, p1, batch_size, params, q2) && match q2 {
                        Err(_) => after.2 == self.2 && after.3 == self.3 && after.4 == self.4 && after.5 == self.5 && after.6 == self.6 && after.7 == self.7 && after.8 == self.8 && after.9 == self.9 && after.10 == self.10 && after.11 == self.11 && after.12 == self.12 && after.13 == self.13 && r == q2,
                        Ok(p2) => exists|q3: Result<usize, BatchError>|
                            #[trigger] self.2.update_ok(after.2, p2, batch_size, params, q3) && match q3 {
                                Err(_) => after.3 == self.3 && after.4 == self.4 && after.5 == self.5 && after.6 == self.6 && after.7 == self.7 && after.8 == self.8 && after.9 == self.9 && after.10 == self.10 && after.11 == self.11 && after.12 == self.12 && after.13 == self.13 && r == q3,
                                Ok(p3) => exists|q4: Result<usize, BatchError>|
                                    #[trigger] self.3.update_ok(after.3, p3, batch_size, params, q4) && match q4 {
                                        Err(_) => after.4 == self.4 && after.5 == self.5 && after.6 == self.6 && after.7 == self.7 && after.8 == self.8 && after.9 == self.9 && after.10 == self.10 && after.11 == self.11 && after.12 == self.12 && after.13 == self.13 && r == q4,
                                        Ok(p4) => exists|q5: Result<usize, BatchError>|
                                            #[trigger] self.4.update_ok(after.4, p4, batch_size, params, q5) && match q5 {
                                                Err(_) => after.5 == self.5 && after.6 == self.6 && after.7 == self.7 && after.8 == self.8 && after.9 == self.9 && after.10 == self.10 && after.11 == self.11 && after.12 == self.12 && after.13 == self.13 && r == q5,
                                                Ok(p5) => exists|q6: Result<usize, BatchError>|
                                                    #[trigger] self.5.update_ok(after.5, p5, batch_size, params, q6) && match q6 {
                                                        Err(_) => after.6 == self.6 && after.7 == self.7 && after.8 == self.8 && after.9 == self.9 && after.10 == self.10 && after.11 == self.11 && after.12 == self.12 && after.13 == self.13 && r == q6,
                                                        Ok(p6) => exists|q7: Result<usize, BatchError>|
                                                            #[trigger] self.6.update_ok(after.6, p6, batch_size, params, q7) && match q7 {
                                                                Err(_) => after.7 == self.7 && after.8 == self.8 && after.9 == self.9 && after.10 == self.10 && after.11 == self.11 && after.12 == self.12 && after.13 == self.13 && r == q7,
                                                                Ok(p7) => exists|q8: Result<usize, BatchError>|
                                                                    #[trigger] self.7.update_ok(after.7, p7, batch_size, params, q8) && match q8 {
                                                                        Err(_) => after.8 == self.8 && after.9 == self.9 && after.10 == self.10 && after.11 == self.11 && after.12 == self.12 && after.13 == self.13 && r == q8,
                                                                        Ok(p8) => exists|q9: Result<usize, BatchError>|
                                                                            #[trigger] self.8.update_ok(after.8, p8, batch_size, params, q9) && match q9 {
                                                                                Err(_) => after.9 == self.9 && after.10 == self.10 && after.11 == self.11 && after.12 == self.12 && after.13 == self.13 && r == q9,
                                                                                Ok(p9) => exists|q10: Result<usize, BatchError>|
                                                                                    #[trigger] self.9.update_ok(after.9, p9, batch_size, params, q10) && match q10 {
                                                                                        Err(_) => after.10 == self.10 && after.11 == self.11 && after.12 == self.12 && after.13 == self.13 && r == q10,
                                                                                        Ok(p10) => exists|q11: Result<usize, BatchError>|
                                                                                            #[trigger] self.10.update_ok(after.10, p10, batch_size, params, q11) && match q11 {
                                                                                                Err(_) => after.11 == self.11 && after.12 == self.12 && after.13 == self.13 && r == q11,
                                                                                                Ok(p11) => exists|q12: Result<usize, BatchError>|
                                                                                                    #[trigger] self.11.update_ok(after.11, p11, batch_size, params, q12) && match q12 {
                                                                                                        Err(_) => after.12 == self.12 && after.13 == self.13 && r == q12,
                                                                                                        Ok(p12) => exists|q13: Result<usize, BatchError>|
                                                                                                            #[trigger] self.12.update_ok(after.12, p12, batch_size, params, q13) && match q13 {
                                                                                                                Err(_) => after.13 == self.13 && r == q13,
                                                                                                                Ok(p13) => self.13.update_ok(after.13, p13, batch_size, params, r),
                                                                                                            },
                                                                                                    },
                                                                                            },
                                                                                    },
                                                                            },
                                                                    },
                                                            },
                                                    },
                                            },
                                    },
                            },
                    },
            }
    }

    /// Binds the arguments one after the other, each from the position the
    /// one before it gives back; the first refusal ends it.
    fn bind_batch_to(&mut self, pos: usize, batch_size: usize, params: &mut BatchParams) -> (r: Result<usize, BatchError>) {
        let ghost s0 = *self;
        let ghost v0 = params@;
        let ghost c = v0.count();
        let ghost m = if pos >= c { pos as nat } else { c };
        proof {
            assert(next_bound(pos, c, Self::width()) == m + Self::width());
        }
        let p0 = pos;
        let r1 = self.0.bind_batch_to(p0, batch_size, params);
        let ghost v1 = params@;
        let p1 = match r1 {
            Ok(p) => p,
            Err(e) => {
                proof {
                    assert(s0.0.bind_ok(p0, v0, v1, r1));
                    assert(s0.bind_ok(pos, v0, v1, r1));
                }
                return Err(e);
            },
        };
        assert(v1.count() == c && p1 <= m + A::width());
        let r2 = self.1.bind_batch_to(p1, batch_size, params);
        let ghost v2 = params@;
        let p2 = match r2 {
            Ok(p) => p,
            Err(e) => {
                proof {
                    assert(s0.0.bind_ok(p0, v0, v1, r1));
                    assert(s0.1.bind_ok(p1, v1, v2, r2));
                    assert(s0.bind_ok(pos, v0, v2, r2));
                }
                return Err(e);
            },
        };
        assert(v2.count() == c && p2 <= m + A::width() + B::width());
        let r3 = self.2.bind_batch_to(p2, batch_size, params);
        let ghost v3 = params@;
        let p3 = match r3 {
            Ok(p) => p,
            Err(e) => {
                proof {
                    assert(s0.0.bind_ok(p0, v0, v1, r1));
                    assert(s0.1.bind_ok(p1, v1, v2, r2));
                    assert(s0.2.bind_ok(p2, v2, v3, r3));
                    assert(s0.bind_ok(pos, v0, v3, r3));
                }
                return Err(e);
            },
        };
        assert(v3.count() == c && p3 <= m + A::width() + B::width() + C::width());
        let r4 = self.3.bind_batch_to(p3, batch_size, params);
        let ghost v4 = params@;
        let p4 = match r4 {
            Ok(p) => p,
            Err(e) => {
                proof {
                    assert(s0.0.bind_ok(p0, v0, v1, r1));
                    assert(s0.1.bind_ok(p1, v1, v2, r2));
                    assert(s0.2.bind_ok(p2, v2, v3, r3));
                    assert(s0.3.bind_ok(p3, v3, v4, r4));
                    assert(s0.bind_ok(pos, v0, v4, r4));
                }
                return Err(e);
            },
        };
        assert(v4.count() == c && p4 <= m + A::width() + B::width() + C::width() + D::width());
        let r5 = self.4.bind_batch_to(p4, batch_size, params);
        let ghost v5 = params@;
        let p5 = match r5 {
            Ok(p) => p,
            Err(e) => {
                proof {
                    assert(s0.0.bind_ok(p0, v0, v1, r1));
                    assert(s0.1.bind_ok(p1, v1, v2, r2));
                    assert(s0.2.bind_ok(p2, v2, v3, r3));
                    assert(s0.3.bind_ok(p3, v3, v4, r4));
                    assert(s0.4.bind_ok(p4, v4, v5, r5));
                    assert(s0.bind_ok(pos, v0, v5, r5));
                }
                return Err(e);
            },
        };
        assert(v5.count() == c && p5 <= m + A::width() + B::width() + C::width() + D::width() + E::width());
        let r6 = self.5.bind_batch_to(p5, batch_size, params);
        let ghost v6 = params@;
        let p6 = match r6 {
            Ok(p) => p,
            Err(e) => {
                proof {
                    assert(s0.0.bind_ok(p0, v0, v1, r1));
                    assert(s0.1.bind_ok(p1, v1, v2, r2));
                    assert(s0.2.bind_ok(p2, v2, v3, r3));
                    assert(s0.3.bind_ok(p3, v3, v4, r4));
                    assert(s0.4.bind_ok(p4, v4, v5, r5));
                    assert(s0.5.bind_ok(p5, v5, v6, r6));
                    assert(s0.bind_ok(pos, v0, v6, r6));
                }
                return Err(e);
            },
        };
        assert(v6.count() == c && p6 <= m + A::width() + B::width() + C::width() + D::width() + E::width() + F::width());
        let r7 = self.6.bind_batch_to(p6, batch_size, params);
        let ghost v7 = params@;
        let p7 = match r7 {
            Ok(p) => p,
            Err(e) => {
                proof {
                    assert(s0.0.bind_ok(p0, v0, v1, r1));
                    assert(s0.1.bind_ok(p1, v1, v2, r2));
                    assert(s0.2.bind_ok(p2, v2, v3, r3));
                    assert(s0.3.bind_ok(p3, v3, v4, r4));
                    assert(s0.4.bind_ok(p4, v4, v5, r5));
                    assert(s0.5.bind_ok(p5, v5, v6, r6));
                    assert(s0.6.bind_ok(p6, v6, v7, r7));
                    assert(s0.bind_ok(pos, v0, v7, r7));
                }
                return Err(e);
            },
        };
        assert(v7.count() == c && p7 <= m + A::width() + B::width() + C::width() + D::width() + E::width() + F::width() + G::width());
        let r8 = self.7.bind_batch_to(p7, batch_size, params);
        let ghost v8 = params@;
        let p8 = match r8 {
            Ok(p) => p,
            Err(e) => {
                proof {
                    assert(s0.0.bind_ok(p0, v0, v1, r1));
                    assert(s0.1.bind_ok(p1, v1, v2, r2));
                    assert(s0.2.bind_ok(p2, v2, v3, r3));
                    assert(s0.3.bind_ok(p3, v3, v4, r4));
                    assert(s0.4.bind_ok(p4, v4, v5, r5));
                    assert(s0.5.bind_ok(p5, v5, v6, r6));
                    assert(s0.6.bind_ok(p6, v6, v7, r7));
                    assert(s0.7.bind_ok(p7, v7, v8, r8));
                    assert(s0.bind_ok(pos, v0, v8, r8));
                }
                return Err(e);
            },
        };
        assert(v8.count() == c && p8 <= m + A::width() + B::width() + C::width() + D::width() + E::width() + F::width() + G::width() + H::width());
        let r9 = self.8.bind_batch_to(p8, batch_size, params);
        let ghost v9 = params@;
        let p9 = match r9 {
            Ok(p) => p,
            Err(e) => {
                proof {
                    assert(s0.0.bind_ok(p0, v0, v1, r1));
                    assert(s0.1.bind_ok(p1, v1, v2, r2));
                    assert(s0.2.bind_ok(p2, v2, v3, r3));
                    assert(s0.3.bind_ok(p3, v3, v4, r4));
                    assert(s0.4.bind_ok(p4, v4, v5, r5));
                    assert(s0.5.bind_ok(p5, v5, v6, r6));
                    assert(s0.6.bind_ok(p6, v6, v7, r7));
                    assert(s0.7.bind_ok(p7, v7, v8, r8));
                    assert(s0.8.bind_ok(p8, v8, v9, r9));
                    assert(s0.bind_ok(pos, v0, v9, r9));
                }
                return Err(e);
            },
        };
        assert(v9.count() == c && p9 <= m + A::width() + B::width() + C::width() + D::width() + E::width() + F::width() + G::width() + H::width() + I::width());
        let r10 = self.9.bind_batch_to(p9, batch_size, params);
        let ghost v10 = params@;
        let p10 = match r10 {
            Ok(p) => p,
            Err(e) => {
                proof {
                    assert(s0.0.bind_ok(p0, v0, v1, r1));
                    assert(s0.1.bind_ok(p1, v1, v2, r2));
                    assert(s0.2.bind_ok(p2, v2, v3, r3));
                    assert(s0.3.bind_ok(p3, v3, v4, r4));
                    assert(s0.4.bind_ok(p4, v4, v5, r5));
                    assert(s0.5.bind_ok(p5, v5, v6, r6));
                    assert(s0.6.bind_ok(p6, v6, v7, r7));
                    assert(s0.7.bind_ok(p7, v7, v8, r8));
                    assert(s0.8.bind_ok(p8, v8, v9, r9));
                    assert(s0.9.bind_ok(p9, v9, v10, r10));
                    assert(s0.bind_ok(pos, v0, v10, r10));
                }
                return Err(e);
            },
        };
        assert(v10.count() == c && p10 <= m + A::width() + B::width() + C::width() + D::width() + E::width() + F::width() + G::width() + H::width() + I::width() + J::width());
        let r11 = self.10.bind_batch_to(p10, batch_size, params);
        let ghost v11 = params@;
        let p11 = match r11 {
            Ok(p) => p,
            Err(e) => {
                proof {
                    assert(s0.0.bind_ok(p0, v0, v1, r1));
                    assert(s0.1.bind_ok(p1, v1, v2, r2));
                    assert(s0.2.bind_ok(p2, v2, v3, r3));
                    assert(s0.3.bind_ok(p3, v3, v4, r4));
                    assert(s0.4.bind_ok(p4, v4, v5, r5));
                    assert(s0.5.bind_ok(p5, v5, v6, r6));
                    assert(s0.6.bind_ok(p6, v6, v7, r7));
                    assert(s0.7.bind_ok(p7, v7, v8, r8));
                    assert(s0.8.bind_ok(p8, v8, v9, r9));
                    assert(s0.9.bind_ok(p9, v9, v10, r10));
                    assert(s0.10.bind_ok(p10, v10, v11, r11));
                    assert(s0.bind_ok(pos, v0, v11, r11));
                }
                return Err(e);
            },
        };
        assert(v11.count() == c && p11 <= m + A::width() + B::width() + C::width() + D::width() + E::width() + F::width() + G::width() + H::width() + I::width() + J::width() + K::width());
        let r12 = self.11.bind_batch_to(p11, batch_size, params);
        let ghost v12 = params@;
        let p12 = match r12 {
            Ok(p) => p,
            Err(e) => {
                proof {
                    assert(s0.0.bind_ok(p0, v0, v1, r1));
                    assert(s0.1.bind_ok(p1, v1, v2, r2));
                    assert(s0.2.bind_ok(p2, v2, v3, r3));
                    assert(s0.3.bind_ok(p3, v3, v4, r4));
                    assert(s0.4.bind_ok(p4, v4, v5, r5));
                    assert(s0.5.bind_ok(p5, v5, v6, r6));
                    assert(s0.6.bind_ok(p6, v6, v7, r7));
                    assert(s0.7.bind_ok(p7, v7, v8, r8));
                    assert(s0.8.bind_ok(p8, v8, v9, r9));
                    assert(s0.9.bind_ok(p9, v9, v10, r10));
                    assert(s0.10.bind_ok(p10, v10, v11, r11));
                    assert(s0.11.bind_ok(p11, v11, v12, r12));
                    assert(s0.bind_ok(pos, v0, v12, r12));
                }
                return Err(e);
            },
        };
        assert(v12.count() == c && p12 <= m + A::width() + B::width() + C::width() + D::width() + E::width() + F::width() + G::width() + H::width() + I::width() + J::width() + K::width() + L::width());
        let r13 = self.12.bind_batch_to(p12, batch_size, params);
        let ghost v13 = params@;
        let p13 = match r13 {
            Ok(p) => p,
            Err(e) => {
                proof {
                    assert(s0.0.bind_ok(p0, v0, v1, r1));
                    assert(s0.1.bind_ok(p1, v1, v2, r2));
                    assert(s0.2.bind_ok(p2, v2, v3, r3));
                    assert(s0.3.bind_ok(p3, v3, v4, r4));
                    assert(s0.4.bind_ok(p4, v4, v5, r5));
                    assert(s0.5.bind_ok(p5, v5, v6, r6));
                    assert(s0.6.bind_ok(p6, v6, v7, r7));
                    assert(s0.7.bind_ok(p7, v7, v8, r8));
                    assert(s0.8.bind_ok(p8, v8, v9, r9));
                    assert(s0.9.bind_ok(p9, v9, v10, r10));
                    assert(s0.10.bind_ok(p10, v10, v11, r11));
                    assert(s0.11.bind_ok(p11, v11, v12, r12));
                    assert(s0.12.bind_ok(p12, v12, v13, r13));
                    assert(s0.bind_ok(pos, v0, v13, r13));
                }
                return Err(e);
            },
        };
        assert(v13.count() == c && p13 <= m + A::width() + B::width() + C::width() + D::width() + E::width() + F::width() + G::width() + H::width() + I::width() + J::width() + K::width() + L::width() + M::width());
        let r14 = self.13.bind_batch_to(p13, batch_size, params);
        let ghost v14 = params@;
        proof {
            assert(s0.0.bind_ok(p0, v0, v1, r1));
            assert(s0.1.bind_ok(p1, v1, v2, r2));
            assert(s0.2.bind_ok(p2, v2, v3, r3));
            assert(s0.3.bind_ok(p3, v3, v4, r4));
            assert(s0.4.bind_ok(p4, v4, v5, r5));
            assert(s0.5.bind_ok(p5, v5, v6, r6));
            assert(s0.6.bind_ok(p6, v6, v7, r7));
            assert(s0.7.bind_ok(p7, v7, v8, r8));
            assert(s0.8.bind_ok(p8, v8, v9, r9));
            assert(s0.9.bind_ok(p9, v9, v10, r10));
            assert(s0.10.bind_ok(p10, v10, v11, r11));
            assert(s0.11.bind_ok(p11, v11, v12, r12));
            assert(s0.12.bind_ok(p12, v12, v13, r13));
            assert(s0.13.bind_ok(p13, v13, v14, r14));
            assert(s0.bind_ok(pos, v0, v14, r14));
        }
        r14
    }

    /// Updates the arguments one after the other; the first refusal ends it.
    fn update_batch_from_bind(&mut self, pos: usize, batch_size: usize, params: &BatchParams) -> (r: Result<usize, BatchError>) {
        let ghost s0 = *self;
        let ghost c = params@.count();
        let ghost m = if pos >= c { pos as nat } else { c };
        proof {
            assert(next_bound(pos, c, Self::width()) == m + Self::width());
        }
        let p0 = pos;
        let r1 = self.0.update_batch_from_bind(p0, batch_size, params);
        let p1 = match r1 {
            Ok(p) => p,
            Err(e) => {
                proof {
                    let cur = *self;
                    assert(s0.0.update_ok(cur.0, p0, batch_size, params@, r1));
                    assert(s0.update_ok(cur, pos, batch_size, params@, r1));
                }
                return Err(e);
            },
        };
        assert(p1 <= m + A::width());
        let r2 = self.1.update_batch_from_bind(p1, batch_size, params);
        let p2 = match r2 {
            Ok(p) => p,
            Err(e) => {
                proof {
                    let cur = *self;
                    assert(s0.0.update_ok(cur.0, p0, batch_size, params@, r1));
                    assert(s0.1.update_ok(cur.1, p1, batch_size, params@, r2));
                    assert(s0.update_ok(cur, pos, batch_size, params@, r2));
                }
                return Err(e);
            },
        };
        assert(p2 <= m + A::width() + B::width());
        let r3 = self.2.update_batch_from_bind(p2, batch_size, params);
        let p3 = match r3 {
            Ok(p) => p,
            Err(e) => {
                proof {
                    let cur = *self;
                    assert(s0.0.update_ok(cur.0, p0, batch_size, params@, r1));
                    assert(s0.1.update_ok(cur.1, p1, batch_size, params@, r2));
                    assert(s0.2.update_ok(cur.2, p2, batch_size, params@, r3));
                    assert(s0.update_ok(cur, pos, batch_size, params@, r3));
                }
                return Err(e);
            },
        };
        assert(p3 <= m + A::width() + B::width() + C::width());
        let r4 = self.3.update_batch_from_bind(p3, batch_size, params);
        let p4 = match r4 {
            Ok(p) => p,
            Err(e) => {
                proof {
                    let cur = *self;
                    assert(s0.0.update_ok(cur.0, p0, batch_size, params@, r1));
                    assert(s0.1.update_ok(cur.1, p1, batch_size, params@, r2));
                    assert(s0.2.update_ok(cur.2, p2, batch_size, params@, r3));
                    assert(s0.3.update_ok(cur.3, p3, batch_size, params@, r4));
                    assert(s0.update_ok(cur, pos, batch_size, params@, r4));
                }
                return Err(e);
            },
        };
        assert(p4 <= m + A::width() + B::width() + C::width() + D::width());
        let r5 = self.4.update_batch_from_bind(p4, batch_size, params);
        let p5 = match r5 {
            Ok(p) => p,
            Err(e) => {
                proof {
                    let cur = *self;
                    assert(s0.0.update_ok(cur.0, p0, batch_size, params@, r1));
                    assert(s0.1.update_ok(cur.1, p1, batch_size, params@, r2));
                    assert(s0.2.update_ok(cur.2, p2, batch_size, params@, r3));
                    assert(s0.3.update_ok(cur.3, p3, batch_size, params@, r4));
                    assert(s0.4.update_ok(cur.4, p4, batch_size, params@, r5));
                    assert(s0.update_ok(cur, pos, batch_size, params@, r5));
                }
                return Err(e);
            },
        };
        assert(p5 <= m + A::width() + B::width() + C::width() + D::width() + E::width());
        let r6 = self.5.update_batch_from_bind(p5, batch_size, params);
        let p6 = match r6 {
            Ok(p) => p,
            Err(e) => {
                proof {
                    let cur = *self;
                    assert(s0.0.update_ok(cur.0, p0, batch_size, params@, r1));
                    assert(s0.1.update_ok(cur.1, p1, batch_size, params@, r2));
                    assert(s0.2.update_ok(cur.2, p2, batch_size, params@, r3));
                    assert(s0.3.update_ok(cur.3, p3, batch_size, params@, r4));
                    assert(s0.4.update_ok(cur.4, p4, batch_size, params@, r5));
                    assert(s0.5.update_ok(cur.5, p5, batch_size, params@, r6));
                    assert(s0.update_ok(cur, pos, batch_size, params@, r6));
                }
                return Err(e);
            },
        };
        assert(p6 <= m + A::width() + B::width() + C::width() + D::width() + E::width() + F::width());
        let r7 = self.6.update_batch_from_bind(p6, batch_size, params);
        let p7 = match r7 {
            Ok(p) => p,
            Err(e) => {
                proof {
                    let cur = *self;
                    assert(s0.0.update_ok(cur.0, p0, batch_size, params@, r1));
                    assert(s0.1.update_ok(cur.1, p1, batch_size, params@, r2));
                    assert(s0.2.update_ok(cur.2, p2, batch_size, params@, r3));
                    assert(s0.3.update_ok(cur.3, p3, batch_size, params@, r4));
                    assert(s0.4.update_ok(cur.4, p4, batch_size, params@, r5));
                    assert(s0.5.update_ok(cur.5, p5, batch_size, params@, r6));
                    assert(s0.6.update_ok(cur.6, p6, batch_size, params@, r7));
                    assert(s0.update_ok(cur, pos, batch_size, params@, r7));
                }
                return Err(e);
            },
        };
        assert(p7 <= m + A::width() + B::width() + C::width() + D::width() + E::width() + F::width() + G::width());
        let r8 = self.7.update_batch_from_bind(p7, batch_size, params);
        let p8 = match r8 {
            Ok(p) => p,
            Err(e) => {
                proof {
                    let cur = *self;
                    assert(s0.0.update_ok(cur.0, p0, batch_size, params@, r1));
                    assert(s0.1.update_ok(cur.1, p1, batch_size, params@, r2));
                    assert(s0.2.update_ok(cur.2, p2, batch_size, params@, r3));
                    assert(s0.3.update_ok(cur.3, p3, batch_size, params@, r4));
                    assert(s0.4.update_ok(cur.4, p4, batch_size, params@, r5));
                    assert(s0.5.update_ok(cur.5, p5, batch_size, params@, r6));
                    assert(s0.6.update_ok(cur.6, p6, batch_size, params@, r7));
                    assert(s0.7.update_ok(cur.7, p7, batch_size, params@, r8));
                    assert(s0.update_ok(cur, pos, batch_size, params@, r8));
                }
                return Err(e);
            },
        };
        assert(p8 <= m + A::width() + B::width() + C::width() + D::width() + E::width() + F::width() + G::width() + H::width());
        let r9 = self.8.update_batch_from_bind(p8, batch_size, params);
        let p9 = match r9 {
            Ok(p) => p,
            Err(e) => {
                proof {
                    let cur = *self;
                    assert(s0.0.update_ok(cur.0, p0, batch_size, params@, r1));
                    assert(s0.1.update_ok(cur.1, p1, batch_size, params@, r2));
                    assert(s0.2.update_ok(cur.2, p2, batch_size, params@, r3));
                    assert(s0.3.update_ok(cur.3, p3, batch_size, params@, r4));
                    assert(s0.4.update_ok(cur.4, p4, batch_size, params@, r5));
                    assert(s0.5.update_ok(cur.5, p5, batch_size, params@, r6));
                    assert(s0.6.update_ok(cur.6, p6, batch_size, params@, r7));
                    assert(s0.7.update_ok(cur.7, p7, batch_size, params@, r8));
                    assert(s0.8.update_ok(cur.8, p8, batch_size, params@, r9));
                    assert(s0.update_ok(cur, pos, batch_size, params@, r9));
                }
                return Err(e);
            },
        };
        assert(p9 <= m + A::width() + B::width() + C::width() + D::width() + E::width() + F::width() + G::width() + H::width() + I::width());
        let r10 = self.9.update_batch_from_bind(p9, batch_size, params);
        let p10 = match r10 {
            Ok(p) => p,
            Err(e) => {
                proof {
                    let cur = *self;
                    assert(s0.0.update_ok(cur.0, p0, batch_size, params@, r1));
                    assert(s0.1.update_ok(cur.1, p1, batch_size, params@, r2));
                    assert(s0.2.update_ok(cur.2, p2, batch_size, params@, r3));
                    assert(s0.3.update_ok(cur.3, p3, batch_size, params@, r4));
                    assert(s0.4.update_ok(cur.4, p4, batch_size, params@, r5));
                    assert(s0.5.update_ok(cur.5, p5, batch_size, params@, r6));
                    assert(s0.6.update_ok(cur.6, p6, batch_size, params@, r7));
                    assert(s0.7.update_ok(cur.7, p7, batch_size, params@, r8));
                    assert(s0.8.update_ok(cur.8, p8, batch_size, params@, r9));
                    assert(s0.9.update_ok(cur.9, p9, batch_size, params@, r10));
                    assert(s0.update_ok(cur, pos, batch_size, params@, r10));
                }
                return Err(e);
            },
        };
        assert(p10 <= m + A::width() + B::width() + C::width() + D::width() + E::width() + F::width() + G::width() + H::width() + I::width() + J::width());
        let r11 = self.10.update_batch_from_bind(p10, batch_size, params);
        let p11 = match r11 {
            Ok(p) => p,
            Err(e) => {
                proof {
                    let cur = *self;
                    assert(s0.0.update_ok(cur.0, p0, batch_size, params@, r1));
                    assert(s0.1.update_ok(cur.1, p1, batch_size, params@, r2));
                    assert(s0.2.update_ok(cur.2, p2, batch_size, params@, r3));
                    assert(s0.3.update_ok(cur.3, p3, batch_size, params@, r4));
                    assert(s0.4.update_ok(cur.4, p4, batch_size, params@, r5));
                    assert(s0.5.update_ok(cur.5, p5, batch_size, params@, r6));
                    assert(s0.6.update_ok(cur.6, p6, batch_size, params@, r7));
                    assert(s0.7.update_ok(cur.7, p7, batch_size, params@, r8));
                    assert(s0.8.update_ok(cur.8, p8, batch_size, params@, r9));
                    assert(s0.9.update_ok(cur.9, p9, batch_size, params@, r10));
                    assert(s0.10.update_ok(cur.10, p10, batch_size, params@, r11));
                    assert(s0.update_ok(cur, pos, batch_size, params@, r11));
                }
                return Err(e);
            },
        };
        assert(p11 <= m + A::width() + B::width() + C::width() + D::width() + E::width() + F::width() + G::width() + H::width() + I::width() + J::width() + K::width());
        let r12 = self.11.update_batch_from_bind(p11, batch_size, params);
        let p12 = match r12 {
            Ok(p) => p,
            Err(e) => {
                proof {
                    let cur = *self;
                    assert(s0.0.update_ok(cur.0, p0, batch_size, params@, r1));
                    assert(s0.1.update_ok(cur.1, p1, batch_size, params@, r2));
                    assert(s0.2.update_ok(cur.2, p2, batch_size, params@, r3));
                    assert(s0.3.update_ok(cur.3, p3, batch_size, params@, r4));
                    assert(s0.4.update_ok(cur.4, p4, batch_size, params@, r5));
                    assert(s0.5.update_ok(cur.5, p5, batch_size, params@, r6));
                    assert(s0.6.update_ok(cur.6, p6, batch_size, params@, r7));
                    assert(s0.7.update_ok(cur.7, p7, batch_size, params@, r8));
                    assert(s0.8.update_ok(cur.8, p8, batch_size, params@, r9));
                    assert(s0.9.update_ok(cur.9, p9, batch_size, params@, r10));
                    assert(s0.10.update_ok(cur.10, p10, batch_size, params@, r11));
                    assert(s0.11.update_ok(cur.11, p11, batch_size, params@, r12));
                    assert(s0.update_ok(cur, pos, batch_size, params@, r12));
                }
                return Err(e);
            },
        };
        assert(p12 <= m + A::width() + B::width() + C::width() + D::width() + E::width() + F::width() + G::width() + H::width() + I::width() + J::width() + K::width() + L::width());
        let r13 = self.12.update_batch_from_bind(p12, batch_size, params);
        let p13 = match r13 {
            Ok(p) => p,
            Err(e) => {
                proof {
                    let cur = *self;
                    assert(s0.0.update_ok(cur.0, p0, batch_size, params@, r1));
                    assert(s0.1.update_ok(cur.1, p1, batch_size, params@, r2));
                    assert(s0.2.update_ok(cur.2, p2, batch_size, params@, r3));
                    assert(s0.3.update_ok(cur.3, p3, batch_size, params@, r4));
                    assert(s0.4.update_ok(cur.4, p4, batch_size, params@, r5));
                    assert(s0.5.update_ok(cur.5, p5, batch_size, params@, r6));
                    assert(s0.6.update_ok(cur.6, p6, batch_size, params@, r7));
                    assert(s0.7.update_ok(cur.7, p7, batch_size, params@, r8));
                    assert(s0.8.update_ok(cur.8, p8, batch_size, params@, r9));
                    assert(s0.9.update_ok(cur.9, p9, batch_size, params@, r10));
                    assert(s0.10.update_ok(cur.10, p10, batch_size, params@, r11));
                    assert(s0.11.update_ok(cur.11, p11, batch_size, params@, r12));
                    assert(s0.12.update_ok(cur.12, p12, batch_size, params@, r13));
                    assert(s0.update_ok(cur, pos, batch_size, params@, r13));
                }
                return Err(e);
            },
        };
        assert(p13 <= m + A::width() + B::width() + C::width() + D::width() + E::width() + F::width() + G::width() + H::width() + I::width() + J::width() + K::width() + L::width() + M::width());
        let r14 = self.13.update_batch_from_bind(p13, batch_size, params);
        proof {
                let cur = *self;
                assert(s0.0.update_ok(cur.0, p0, batch_size, params@, r1));
                assert(s0.1.update_ok(cur.1, p1, batch_size, params@, r2));
                assert(s0.2.update_ok(cur.2, p2, batch_size, params@, r3));
                assert(s0.3.update_ok(cur.3, p3, batch_size, params@, r4));
                assert(s0.4.update_ok(cur.4, p4, batch_size, params@, r5));
                assert(s0.5.update_ok(cur.5, p5, batch_size, params@, r6));
                assert(s0.6.update_ok(cur.6, p6, batch_size, params@, r7));
                assert(s0.7.update_ok(cur.7, p7, batch_size, params@, r8));
                assert(s0.8.update_ok(cur.8, p8, batch_size, params@, r9));
                assert(s0.9.update_ok(cur.9, p9, batch_size, params@, r10));
                assert(s0.10.update_ok(cur.10, p10, batch_size, params@, r11));
                assert(s0.11.update_ok(cur.11, p11, batch_size, params@, r12));
                assert(s0.12.update_ok(cur.12, p12, batch_size, params@, r13));
                assert(s0.13.update_ok(cur.13, p13, batch_size, params@, r14));
            assert(s0.update_ok(cur, pos, batch_size, params@, r14));
        }
        r14
    }
}

impl<A: ToBatchSql, B: ToBatchSql, C: ToBatchSql, D: ToBatchSql, E: ToBatchSql, F: ToBatchSql, G: ToBatchSql, H: ToBatchSql, I: ToBatchSql, J: ToBatchSql, K: ToBatchSql, L: ToBatchSql, M: ToBatchSql, N: ToBatchSql, O: ToBatchSql> ToBatchSql for (A, B, C, D, E, F, G, H, I, J, K, L, M, N, O) {
    open spec fn width() -> nat {
        A::width() + B::width() + C::width() + D::width() + E::width() + F::width() + G::width() + H::width() + I::width() + J::width() + K::width() + L::width() + M::width() + N::width() + O::width()
    }

    proof fn lemma_width() {
        A::lemma_width();
    }

    open spec fn bind_ok(&self, pos: usize, pre: BatchParamsView, post: BatchParamsView, r: Result<usize, BatchError>) -> bool {
        exists|m1: BatchParamsView, q1: Result<usize, BatchError>|
            #[trigger] self.0.bind_ok(pos, pre, m1, q1) && match q1 {
                Err(_) => post == m1 && r == q1,
                Ok(p1) => exists|m2: BatchParamsView, q2: Result<usize, BatchError>|
                    #[trigger] self.1.bind_ok(p1, m1, m2, q2) && match q2 {
                        Err(_) => post == m2 && r == q2,
                        Ok(p2) => exists|m3: BatchParamsView, q3: Result<usize, BatchError>|
                            #[trigger] self.2.bind_ok(p2, m2, m3, q3) && match q3 {
                                Err(_) => post == m3 && r == q3,
                                Ok(p3) => exists|m4: BatchParamsView, q4: Result<usize, BatchError>|
                                    #[trigger] self.3.bind_ok(p3, m3, m4, q4) && match q4 {
                                        Err(_) => post == m4 && r == q4,
                                        Ok(p4) => exists|m5: BatchParamsView, q5: Result<usize, BatchError>|
                                            #[trigger] self.4.bind_ok(p4, m4, m5, q5) && match q5 {
                                                Err(_) => post == m5 && r == q5,
                                                Ok(p5) => exists|m6: BatchParamsView, q6: Result<usize, BatchError>|
                                                    #[trigger] self.5.bind_ok(p5, m5, m6, q6) && match q6 {
                                                        Err(_) => post == m6 && r == q6,
                                                        Ok(p6) => exists|m7: BatchParamsView, q7: Result<usize, BatchError>|
                                                            #[trigger] self.6.bind_ok(p6, m6, m7, q7) && match q7 {
                                                                Err(_) => post == m7 && r == q7,
                                                                Ok(p7) => exists|m8: BatchParamsView, q8: Result<usize, BatchError>|
                                                                    #[trigger] self.7.bind_ok(p7, m7, m8, q8) && match q8 {
                                                                        Err(_) => post == m8 && r == q8,
                                                                        Ok(p8) => exists|m9: BatchParamsView, q9: Result<usize, BatchError>|
                                                                            #[trigger] self.8.bind_ok(p8, m8, m9, q9) && match q9 {
                                                                                Err(_) => post == m9 && r == q9,
                                                                                Ok(p9) => exists|m10: BatchParamsView, q10: Result<usize, BatchError>|
                                                                                    #[trigger] self.9.bind_ok(p9, m9, m10, q10) && match q10 {
                                                                                        Err(_) => post == m10 && r == q10,
                                                                                        Ok(p10) => exists|m11: BatchParamsView, q11: Result<usize, BatchError>|
                                                                                            #[trigger] self.10.bind_ok(p10, m10, m11, q11) && match q11 {
                                                                                                Err(_) => post == m11 && r == q11,
                                                                                                Ok(p11) => exists|m12: BatchParamsView, q12: Result<usize, BatchError>|
                                                                                                    #[trigger] self.11.bind_ok(p11, m11, m12, q12) && match q12 {
                                                                                                        Err(_) => post == m12 && r == q12,
                                                                                                        Ok(p12) => exists|m13: BatchParamsView, q13: Result<usize, BatchError>|
                                                                                                            #[trigger] self.12.bind_ok(p12, m12, m13, q13) && match q13 {
                                                                                                                Err(_) => post == m13 && r == q13,
                                                                                                                Ok(p13) => exists|m14: BatchParamsView, q14: Result<usize, BatchError>|
                                                                                                                    #[trigger] self.13.bind_ok(p13, m13, m14, q14) && match q14 {
                                                                                                                        Err(_) => post == m14 && r == q14,
                                                                                                                        Ok(p14) => self.14.bind_ok(p14, m14, post, r),
                                                                                                                    },
                                                                                                            },
                                                                                                    },
                                                                                            },
                                                                                    },
                                                                            },
                                                                    },
                                                            },
                                                    },
                                            },
                                    },
                            },
                    },
            }
    }

    open spec fn update_ok(&self, after: Self, pos: usize, batch_size: usize, params: BatchParamsView, r: Result<usize, BatchError>) -> bool {
        exists|q1: Result<usize, BatchError>|
            #[trigger] self.0.update_ok(after.0, pos, batch_size, params, q1) && match q1 {
                Err(_) => after.1 == self.1 && after.2 == self.2 && after.3 == self.3 && after.4 == self.4 && after.5 == self.5 && after.6 == self.6 && after.7 == self.7 && after.8 == self.8 && after.9 == self.9 && after.10 == self.10 && after.11 == self.11 && after.12 == self.12 && after.13 == self.13 && after.14 == self.14 && r == q1,
                Ok(p1) => exists|q2: Result<usize, BatchError>|
                    #[trigger] self.1.update_ok(after.1, p1, batch_size, params, q2) && match q2 {
                        Err(_) => after.2 == self.2 && after.3 == self.3 && after.4 == self.4 && after.5 == self.5 && after.6 == self.6 && after.7 == self.7 && after.8 == self.8 && after.9 == self.9 && after.10 == self.10 && after.11 == self.11 && after.12 == self.12 && after.13 == self.13 && after.14 == self.14 && r == q2,
                        Ok(p2) => exists|q3: Result<usize, BatchError>|
                            #[trigger] self.2.update_ok(after.2, p2, batch_size, params, q3) && match q3 {
                                Err(_) => after.3 == self.3 && after.4 == self.4 && after.5 == self.5 && after.6 == self.6 && after.7 == self.7 && after.8 == self.8 && after.9 == self.9 && after.10 == self.10 && after.11 == self.11 && after.12 == self.12 && after.13 == self.13 && after.14 == self.14 && r == q3,
                                Ok(p3) => exists|q4: Result<usize, BatchError>|
                                    #[trigger] self.3.update_ok(after.3, p3, batch_size, params, q4) && match q4 {
                                        Err(_) => after.4 == self.4 && after.5 == self.5 && after.6 == self.6 && after.7 == self.7 && after.8 == self.8 && after.9 == self.9 && after.10 == self.10 && after.11 == self.11 && after.12 == self.12 && after.13 == self.13 && after.14 == self.14 && r == q4,
                                        Ok(p4) => exists|q5: Result<usize, BatchError>|
                                            #[trigger] self.4.update_ok(after.4, p4, batch_size, params, q5) && match q5 {
                                                Err(_) => after.5 == self.5 && after.6 == self.6 && after.7 == self.7 && after.8 == self.8 && after.9 == self.9 && after.10 == self.10 && after.11 == self.11 && after.12 == self.12 && after.13 == self.13 && after.14 == self.14 && r == q5,
                                                Ok(p5) => exists|q6: Result<usize, BatchError>|
                                                    #[trigger] self.5.update_ok(after.5, p5, batch_size, params, q6) && match q6 {
                                                        Err(_) => after.6 == self.6 && after.7 == self.7 && after.8 == self.8 && after.9 == self.9 && after.10 == self.10 && after.11 == self.11 && after.12 == self.12 && after.13 == self.13 && after.14 == self.14 && r == q6,
                                                        Ok(p6) => exists|q7: Result<usize, BatchError>|
                                                            #[trigger] self.6.update_ok(after.6, p6, batch_size, params, q7) && match q7 {
                                                                Err(_) => after.7 == self.7 && after.8 == self.8 && after.9 == self.9 && after.10 == self.10 && after.11 == self.11 && after.12 == self.12 && after.13 == self.13 && after.14 == self.14 && r == q7,
                                                                Ok(p7) => exists|q8: Result<usize, BatchError>|
                                                                    #[trigger] self.7.update_ok(after.7, p7, batch_size, params, q8) && match q8 {
                                                                        Err(_) => after.8 == self.8 && after.9 == self.9 && after.10 == self.10 && after.11 == self.11 && after.12 == self.12 && after.13 == self.13 && after.14 == self.14 && r == q8,
                                                                        Ok(p8) => exists|q9: Result<usize, BatchError>|
                                                                            #[trigger] self.8.update_ok(after.8, p8, batch_size, params, q9) && match q9 {
                                                                                Err(_) => after.9 == self.9 && after.10 == self.10 && after.11 == self.11 && after.12 == self.12 && after.13 == self.13 && after.14 == self.14 && r == q9,
                                                                                Ok(p9) => exists|q10: Result<usize, BatchError>|
                                                                                    #[trigger] self.9.update_ok(after.9, p9, batch_size, params, q10) && match q10 {
                                                                                        Err(_) => after.10 == self.10 && after.11 == self.11 && after.12 == self.12 && after.13 == self.13 && after.14 == self.14 && r == q10,
                                                                                        Ok(p10) => exists|q11: Result<usize, BatchError>|
                                                                                            #[trigger] self.10.update_ok(after.10, p10, batch_size, params, q11) && match q11 {
                                                                                                Err(_) => after.11 == self.11 && after.12 == self.12 && after.13 == self.13 && after.14 == self.14 && r == q11,
                                                                                                Ok(p11) => exists|q12: Result<usize, BatchError>|
                                                                                                    #[trigger] self.11.update_ok(after.11, p11, batch_size, params, q12) && match q12 {
                                                                                                        Err(_) => after.12 == self.12 && after.13 == self.13 && after.14 == self.14 && r == q12,
                                                                                                        Ok(p12) => exists|q13: Result<usize, BatchError>|
                                                                                                            #[trigger] self.12.update_ok(after.12, p12, batch_size, params, q13) && match q13 {
                                                                                                                Err(_) => after.13 == self.13 && after.14 == self.14 && r == q13,
                                                                                                                Ok(p13) => exists|q14: Result<usize, BatchError>|
                                                                                                                    #[trigger] self.13.update_ok(after.13, p13, batch_size, params, q14) && match q14 {
                                                                                                                        Err(_) => after.14 == self.14 && r == q14,
                                                                                                                        Ok(p14) => self.14.update_ok(after.14, p14, batch_size, params, r),
                                                                                                                    },
                                                                                                            },
                                                                                                    },
                                                                                            },
                                                                                    },
                                                                            },
                                                                    },
                                                            },
                                                    },
                                            },
                                    },
                            },
                    },
            }
    }

    /// Binds the arguments one after the other, each from the position the
    /// one before it gives back; the first refusal ends it.
    fn bind_batch_to(&mut self, pos: usize, batch_size: usize, params: &mut BatchParams) -> (r: Result<usize, BatchError>) {
        let ghost s0 = *self;
        let ghost v0 = params@;
        let ghost c = v0.count();
        let ghost m = if pos >= c { pos as nat } else { c };
        proof {
            assert(next_bound(pos, c, Self::width()) == m + Self::width());
        }
        let p0 = pos;
        let r1 = self.0.bind_batch_to(p0, batch_size, params);
        let ghost v1 = params@;
        let p1 = match r1 {
            Ok(p) => p,
            Err(e) => {
                proof {
                    assert(s0.0.bind_ok(p0, v0, v1, r1));
                    assert(s0.bind_ok(pos, v0, v1, r1));
                }
                return Err(e);
            },
        };
        assert(v1.count() == c && p1 <= m + A::width());
        let r2 = self.1.bind_batch_to(p1, batch_size, params);
        let ghost v2 = params@;
        let p2 = match r2 {
            Ok(p) => p,
            Err(e) => {
                proof {
                    assert(s0.0.bind_ok(p0, v0, v1, r1));
                    assert(s0.1.bind_ok(p1, v1, v2, r2));
                    assert(s0.bind_ok(pos, v0, v2, r2));
                }
                return Err(e);
            },
        };
        assert(v2.count() == c && p2 <= m + A::width() + B::width());
        let r3 = self.2.bind_batch_to(p2, batch_size, params);
        let ghost v3 = params@;
        let p3 = match r3 {
            Ok(p) => p,
            Err(e) => {
                proof {
                    assert(s0.0.bind_ok(p0, v0, v1, r1));
                    assert(s0.1.bind_ok(p1, v1, v2, r2));
                    assert(s0.2.bind_ok(p2, v2, v3, r3));
                    assert(s0.bind_ok(pos, v0, v3, r3));
                }
                return Err(e);
            },
        };
        assert(v3.count() == c && p3 <= m + A::width() + B::width() + C::width());
        let r4 = self.3.bind_batch_to(p3, batch_size, params);
        let ghost v4 = params@;
        let p4 = match r4 {
            Ok(p) => p,
            Err(e) => {
                proof {
                    assert(s0.0.bind_ok(p0, v0, v1, r1));
                    assert(s0.1.bind_ok(p1, v1, v2, r2));
                    assert(s0.2.bind_ok(p2, v2, v3, r3));
                    assert(s0.3.bind_ok(p3, v3, v4, r4));
                    assert(s0.bind_ok(pos, v0, v4, r4));
                }
                return Err(e);
            },
        };
        assert(v4.count() == c && p4 <= m + A::width() + B::width() + C::width() + D::width());
        let r5 = self.4.bind_batch_to(p4, batch_size, params);
        let ghost v5 = params@;
        let p5 = match r5 {
            Ok(p) => p,
            Err(e) => {
                proof {
                    assert(s0.0.bind_ok(p0, v0, v1, r1));
                    assert(s0.1.bind_ok(p1, v1, v2, r2));
                    assert(s0.2.bind_ok(p2, v2, v3, r3));
                    assert(s0.3.bind_ok(p3, v3, v4, r4));
                    assert(s0.4.bind_ok(p4, v4, v5, r5));
                    assert(s0.bind_ok(pos, v0, v5, r5));
                }
                return Err(e);
            },
        };
        assert(v5.count() == c && p5 <= m + A::width() + B::width() + C::width() + D::width() + E::width());
        let r6 = self.5.bind_batch_to(p5, batch_size, params);
        let ghost v6 = params@;
        let p6 = match r6 {
            Ok(p) => p,
            Err(e) => {
                proof {
                    assert(s0.0.bind_ok(p0, v0, v1, r1));
                    assert(s0.1.bind_ok(p1, v1, v2, r2));
                    assert(s0.2.bind_ok(p2, v2, v3, r3));
                    assert(s0.3.bind_ok(p3, v3, v4, r4));
                    assert(s0.4.bind_ok(p4, v4, v5, r5));
                    assert(s0.5.bind_ok(p5, v5, v6, r6));
                    assert(s0.bind_ok(pos, v0, v6, r6));
                }
                return Err(e);
            },
        };
        assert(v6.count() == c && p6 <= m + A::width() + B::width() + C::width() + D::width() + E::width() + F::width());
        let r7 = self.6.bind_batch_to(p6, batch_size, params);
        let ghost v7 = params@;
        let p7 = match r7 {
            Ok(p) => p,
            Err(e) => {
                proof {
                    assert(s0.0.bind_ok(p0, v0, v1, r1));
                    assert(s0.1.bind_ok(p1, v1, v2, r2));
                    assert(s0.2.bind_ok(p2, v2, v3, r3));
                    assert(s0.3.bind_ok(p3, v3, v4, r4));
                    assert(s0.4.bind_ok(p4, v4, v5, r5));
                    assert(s0.5.bind_ok(p5, v5, v6, r6));
                    assert(s0.6.bind_ok(p6, v6, v7, r7));
                    assert(s0.bind_ok(pos, v0, v7, r7));
                }
                return Err(e);
            },
        };
        assert(v7.count() == c && p7 <= m + A::width() + B::width() + C::width() + D::width() + E::width() + F::width() + G::width());
        let r8 = self.7.bind_batch_to(p7, batch_size, params);
        let ghost v8 = params@;
        let p8 = match r8 {
            Ok(p) => p,
            Err(e) => {
                proof {
                    assert(s0.0.bind_ok(p0, v0, v1, r1));
                    assert(s0.1.bind_ok(p1, v1, v2, r2));
                    assert(s0.2.bind_ok(p2, v2, v3, r3));
                    assert(s0.3.bind_ok(p3, v3, v4, r4));
                    assert(s0.4.bind_ok(p4, v4, v5, r5));
                    assert(s0.5.bind_ok(p5, v5, v6, r6));
                    assert(s0.6.bind_ok(p6, v6, v7, r7));
                    assert(s0.7.bind_ok(p7, v7, v8, r8));
                    assert(s0.bind_ok(pos, v0, v8, r8));
                }
                return Err(e);
            },
        };
        assert(v8.count() == c && p8 <= m + A::width() + B::width() + C::width() + D::width() + E::width() + F::width() + G::width() + H::width());
        let r9 = self.8.bind_batch_to(p8, batch_size, params);
        let ghost v9 = params@;
        let p9 = match r9 {
            Ok(p) => p,
            Err(e) => {
                proof {
                    assert(s0.0.bind_ok(p0, v0, v1, r1));
                    assert(s0.1.bind_ok(p1, v1, v2, r2));
                    assert(s0.2.bind_ok(p2, v2, v3, r3));
                    assert(s0.3.bind_ok(p3, v3, v4, r4));
                    assert(s0.4.bind_ok(p4, v4, v5, r5));
                    assert(s0.5.bind_ok(p5, v5, v6, r6));
                    assert(s0.6.bind_ok(p6, v6, v7, r7));
                    assert(s0.7.bind_ok(p7, v7, v8, r8));
                    assert(s0.8.bind_ok(p8, v8, v9, r9));
                    assert(s0.bind_ok(pos, v0, v9, r9));
                }
                return Err(e);
            },
        };
        assert(v9.count() == c && p9 <= m + A::width() + B::width() + C::width() + D::width() + E::width() + F::width() + G::width() + H::width() + I::width());
        let r10 = self.9.bind_batch_to(p9, batch_size, params);
        let ghost v10 = params@;
        let p10 = match r10 {
            Ok(p) => p,
            Err(e) => {
                proof {
                    assert(s0.0.bind_ok(p0, v0, v1, r1));
                    assert(s0.1.bind_ok(p1, v1, v2, r2));
                    assert(s0.2.bind_ok(p2, v2, v3, r3));
                    assert(s0.3.bind_ok(p3, v3, v4, r4));
                    assert(s0.4.bind_ok(p4, v4, v5, r5));
                    assert(s0.5.bind_ok(p5, v5, v6, r6));
                    assert(s0.6.bind_ok(p6, v6, v7, r7));
                    assert(s0.7.bind_ok(p7, v7, v8, r8));
                    assert(s0.8.bind_ok(p8, v8, v9, r9));
                    assert(s0.9.bind_ok(p9, v9, v10, r10));
                    assert(s0.bind_ok(pos, v0, v10, r10));
                }
                return Err(e);
            },
        };
        assert(v10.count() == c && p10 <= m + A::width() + B::width() + C::width() + D::width() + E::width() + F::width() + G::width() + H::width() + I::width() + J::width());
        let r11 = self.10.bind_batch_to(p10, batch_size, params);
        let ghost v11 = params@;
        let p11 = match r11 {
            Ok(p) => p,
            Err(e) => {
                proof {
                    assert(s0.0.bind_ok(p0, v0, v1, r1));
                    assert(s0.1.bind_ok(p1, v1, v2, r2));
                    assert(s0.2.bind_ok(p2, v2, v3, r3));
                    assert(s0.3.bind_ok(p3, v3, v4, r4));
                    assert(s0.4.bind_ok(p4, v4, v5, r5));
                    assert(s0.5.bind_ok(p5, v5, v6, r6));
                    assert(s0.6.bind_ok(p6, v6, v7, r7));
                    assert(s0.7.bind_ok(p7, v7, v8, r8));
                    assert(s0.8.bind_ok(p8, v8, v9, r9));
                    assert(s0.9.bind_ok(p9, v9, v10, r10));
                    assert(s0.10.bind_ok(p10, v10, v11, r11));
                    assert(s0.bind_ok(pos, v0, v11, r11));
                }
                return Err(e);
            },
        };
        assert(v11.count() == c && p11 <= m + A::width() + B::width() + C::width() + D::width() + E::width() + F::width() + G::width() + H::width() + I::width() + J::width() + K::width());
        let r12 = self.11.bind_batch_to(p11, batch_size, params);
        let ghost v12 = params@;
        let p12 = match r12 {
            Ok(p) => p,
            Err(e) => {
                proof {
                    assert(s0.0.bind_ok(p0, v0, v1, r1));
                    assert(s0.1.bind_ok(p1, v1, v2, r2));
                    assert(s0.2.bind_ok(p2, v2, v3, r3));
                    assert(s0.3.bind_ok(p3, v3, v4, r4));
                    assert(s0.4.bind_ok(p4, v4, v5, r5));
                    assert(s0.5.bind_ok(p5, v5, v6, r6));
                    assert(s0.6.bind_ok(p6, v6, v7, r7));
                    assert(s0.7.bind_ok(p7, v7, v8, r8));
                    assert(s0.8.bind_ok(p8, v8, v9, r9));
                    assert(s0.9.bind_ok(p9, v9, v10, r10));
                    assert(s0.10.bind_ok(p10, v10, v11, r11));
                    assert(s0.11.bind_ok(p11, v11, v12, r12));
                    assert(s0.bind_ok(pos, v0, v12, r12));
                }
                return Err(e);
            },
        };
        assert(v12.count() == c && p12 <= m + A::width() + B::width() + C::width() + D::width() + E::width() + F::width() + G::width() + H::width() + I::width() + J::width() + K::width() + L::width());
        let r13 = self.12.bind_batch_to(p12, batch_size, params);
        let ghost v13 = params@;
        let p13 = match r13 {
            Ok(p) => p,
            Err(e) => {
                proof {
                    assert(s0.0.bind_ok(p0, v0, v1, r1));
                    assert(s0.1.bind_ok(p1, v1, v2, r2));
                    assert(s0.2.bind_ok(p2, v2, v3, r3));
                    assert(s0.3.bind_ok(p3, v3, v4, r4));
                    assert(s0.4.bind_ok(p4, v4, v5, r5));
                    assert(s0.5.bind_ok(p5, v5, v6, r6));
                    assert(s0.6.bind_ok(p6, v6, v7, r7));
                    assert(s0.7.bind_ok(p7, v7, v8, r8));
                    assert(s0.8.bind_ok(p8, v8, v9, r9));
                    assert(s0.9.bind_ok(p9, v9, v10, r10));
                    assert(s0.10.bind_ok(p10, v10, v11, r11));
                    assert(s0.11.bind_ok(p11, v11, v12, r12));
                    assert(s0.12.bind_ok(p12, v12, v13, r13));
                    assert(s0.bind_ok(pos, v0, v13, r13));
                }
                return Err(e);
            },
        };
        assert(v13.count() == c && p13 <= m + A::width() + B::width() + C::width() + D::width() + E::width() + F::width() + G::width() + H::width() + I::width() + J::width() + K::width() + L::width() + M::width());
        let r14 = self.13.bind_batch_to(p13, batch_size, params);
        let ghost v14 = params@;
        let p14 = match r14 {
            Ok(p) => p,
            Err(e) => {
                proof {
                    assert(s0.0.bind_ok(p0, v0, v1, r1));
                    assert(s0.1.bind_ok(p1, v1, v2, r2));
                    assert(s0.2.bind_ok(p2, v2, v3, r3));
                    assert(s0.3.bind_ok(p3, v3, v4, r4));
                    assert(s0.4.bind_ok(p4, v4, v5, r5));
                    assert(s0.5.bind_ok(p5, v5, v6, r6));
                    assert(s0.6.bind_ok(p6, v6, v7, r7));
                    assert(s0.7.bind_ok(p7, v7, v8, r8));
                    assert(s0.8.bind_ok(p8, v8, v9, r9));
                    assert(s0.9.bind_ok(p9, v9, v10, r10));
                    assert(s0.10.bind_ok(p10, v10, v11, r11));
                    assert(s0.11.bind_ok(p11, v11, v12, r12));
                    assert(s0.12.bind_ok(p12, v12, v13, r13));
                    assert(s0.13.bind_ok(p13, v13, v14, r14));
                    assert(s0.bind_ok(pos, v0, v14, r14));
                }
                return Err(e);
            },
        };
        assert(v14.count() == c && p14 <= m + A::width() + B::width() + C::width() + D::width() + E::width() + F::width() + G::width() + H::width() + I::width() + J::width() + K::width() + L::width() + M::width() + N::width());
        let r15 = self.14.bind_batch_to(p14, batch_size, params);
        let ghost v15 = params@;
        proof {
            assert(s0.0.bind_ok(p0, v0, v1, r1));
            assert(s0.1.bind_ok(p1, v1, v2, r2));
            assert(s0.2.bind_ok(p2, v2, v3, r3));
            assert(s0.3.bind_ok(p3, v3, v4, r4));
            assert(s0.4.bind_ok(p4, v4, v5, r5));
            assert(s0.5.bind_ok(p5, v5, v6, r6));
            assert(s0.6.bind_ok(p6, v6, v7, r7));
            assert(s0.7.bind_ok(p7, v7, v8, r8));
            assert(s0.8.bind_ok(p8, v8, v9, r9));
            assert(s0.9.bind_ok(p9, v9, v10, r10));
            assert(s0.10.bind_ok(p10, v10, v11, r11));
            assert(s0.11.bind_ok(p11, v11, v12, r12));
            assert(s0.12.bind_ok(p12, v12, v13, r13));
            assert(s0.13.bind_ok(p13, v13, v14, r14));
            assert(s0.14.bind_ok(p14, v14, v15, r15));
            assert(s0.bind_ok(pos, v0, v15, r15));
        }
        r15
    }

    /// Updates the arguments one after the other; the first refusal ends it.
    fn update_batch_from_bind(&mut self, pos: usize, batch_size: usize, params: &BatchParams) -> (r: Result<usize, BatchError>) {
        let ghost s0 = *self;
        let ghost c = params@.count();
        let ghost m = if pos >= c { pos as nat } else { c };
        proof {
            assert(next_bound(pos, c, Self::width()) == m + Self::width());
        }
        let p0 = pos;
        let r1 = self.0.update_batch_from_bind(p0, batch_size, params);
        let p1 = match r1 {
            Ok(p) => p,
            Err(e) => {
                proof {
                    let cur = *self;
                    assert(s0.0.update_ok(cur.0, p0, batch_size, params@, r1));
                    assert(s0.update_ok(cur, pos, batch_size, params@, r1));
                }
                return Err(e);
            },
        };
        assert(p1 <= m + A::width());
        let r2 = self.1.update_batch_from_bind(p1, batch_size, params);
        let p2 = match r2 {
            Ok(p) => p,
            Err(e) => {
                proof {
                    let cur = *self;
                    assert(s0.0.update_ok(cur.0, p0, batch_size, params@, r1));
                    assert(s0.1.update_ok(cur.1, p1, batch_size, params@, r2));
                    assert(s0.update_ok(cur, pos, batch_size, params@, r2));
                }
                return Err(e);
            },
        };
        assert(p2 <= m + A::width() + B::width());
        let r3 = self.2.update_batch_from_bind(p2, batch_size, params);
        let p3 = match r3 {
            Ok(p) => p,
            Err(e) => {
                proof {
                    let cur = *self;
                    assert(s0.0.update_ok(cur.0, p0, batch_size, params@, r1));
                    assert(s0.1.update_ok(cur.1, p1, batch_size, params@, r2));
                    assert(s0.2.update_ok(cur.2, p2, batch_size, params@, r3));
                    assert(s0.update_ok(cur, pos, batch_size, params@, r3));
                }
                return Err(e);
            },
        };
        assert(p3 <= m + A::width() + B::width() + C::width());
        let r4 = self.3.update_batch_from_bind(p3, batch_size, params);
        let p4 = match r4 {
            Ok(p) => p,
            Err(e) => {
                proof {
                    let cur = *self;
                    assert(s0.0.update_ok(cur.0, p0, batch_size, params@, r1));
                    assert(s0.1.update_ok(cur.1, p1, batch_size, params@, r2));
                    assert(s0.2.update_ok(cur.2, p2, batch_size, params@, r3));
                    assert(s0.3.update_ok(cur.3, p3, batch_size, params@, r4));
                    assert(s0.update_ok(cur, pos, batch_size, params@, r4));
                }
                return Err(e);
            },
        };
        assert(p4 <= m + A::width() + B::width() + C::width() + D::width());
        let r5 = self.4.update_batch_from_bind(p4, batch_size, params);
        let p5 = match r5 {
            Ok(p) => p,
            Err(e) => {
                proof {
                    let cur = *self;
                    assert(s0.0.update_ok(cur.0, p0, batch_size, params@, r1));
                    assert(s0.1.update_ok(cur.1, p1, batch_size, params@, r2));
                    assert(s0.2.update_ok(cur.2, p2, batch_size, params@, r3));
                    assert(s0.3.update_ok(cur.3, p3, batch_size, params@, r4));
                    assert(s0.4.update_ok(cur.4, p4, batch_size, params@, r5));
                    assert(s0.update_ok(cur, pos, batch_size, params@, r5));
                }
                return Err(e);
            },
        };
        assert(p5 <= m + A::width() + B::width() + C::width() + D::width() + E::width());
        let r6 = self.5.update_batch_from_bind(p5, batch_size, params);
        let p6 = match r6 {
            Ok(p) => p,
            Err(e) => {
                proof {
                    let cur = *self;
                    assert(s0.0.update_ok(cur.0, p0, batch_size, params@, r1));
                    assert(s0.1.update_ok(cur.1, p1, batch_size, params@, r2));
                    assert(s0.2.update_ok(cur.2, p2, batch_size, params@, r3));
                    assert(s0.3.update_ok(cur.3, p3, batch_size, params@, r4));
                    assert(s0.4.update_ok(cur.4, p4, batch_size, params@, r5));
                    assert(s0.5.update_ok(cur.5, p5, batch_size, params@, r6));
                    assert(s0.update_ok(cur, pos, batch_size, params@, r6));
                }
                return Err(e);
            },
        };
        assert(p6 <= m + A::width() + B::width() + C::width() + D::width() + E::width() + F::width());
        let r7 = self.6.update_batch_from_bind(p6, batch_size, params);
        let p7 = match r7 {
            Ok(p) => p,
            Err(e) => {
                proof {
                    let cur = *self;
                    assert(s0.0.update_ok(cur.0, p0, batch_size, params@, r1));
                    assert(s0.1.update_ok(cur.1, p1, batch_size, params@, r2));
                    assert(s0.2.update_ok(cur.2, p2, batch_size, params@, r3));
                    assert(s0.3.update_ok(cur.3, p3, batch_size, params@, r4));
                    assert(s0.4.update_ok(cur.4, p4, batch_size, params@, r5));
                    assert(s0.5.update_ok(cur.5, p5, batch_size, params@, r6));
                    assert(s0.6.update_ok(cur.6, p6, batch_size, params@, r7));
                    assert(s0.update_ok(cur, pos, batch_size, params@, r7));
                }
                return Err(e);
            },
        };
        assert(p7 <= m + A::width() + B::width() + C::width() + D::width() + E::width() + F::width() + G::width());
        let r8 = self.7.update_batch_from_bind(p7, batch_size, params);
        let p8 = match r8 {
            Ok(p) => p,
            Err(e) => {
                proof {
                    let cur = *self;
                    assert(s0.0.update_ok(cur.0, p0, batch_size, params@, r1));
                    assert(s0.1.update_ok(cur.1, p1, batch_size, params@, r2));
                    assert(s0.2.update_ok(cur.2, p2, batch_size, params@, r3));
                    assert(s0.3.update_ok(cur.3, p3, batch_size, params@, r4));
                    assert(s0.4.update_ok(cur.4, p4, batch_size, params@, r5));
                    assert(s0.5.update_ok(cur.5, p5, batch_size, params@, r6));
                    assert(s0.6.update_ok(cur.6, p6, batch_size, params@, r7));
                    assert(s0.7.update_ok(cur.7, p7, batch_size, params@, r8));
                    assert(s0.update_ok(cur, pos, batch_size, params@, r8));
                }
                return Err(e);
            },
        };
        assert(p8 <= m + A::width() + B::width() + C::width() + D::width() + E::width() + F::width() + G::width() + H::width());
        let r9 = self.8.update_batch_from_bind(p8, batch_size, params);
        let p9 = match r9 {
            Ok(p) => p,
            Err(e) => {
                proof {
                    let cur = *self;
                    assert(s0.0.update_ok(cur.0, p0, batch_size, params@, r1));
                    assert(s0.1.update_ok(cur.1, p1, batch_size, params@, r2));
                    assert(s0.2.update_ok(cur.2, p2, batch_size, params@, r3));
                    assert(s0.3.update_ok(cur.3, p3, batch_size, params@, r4));
                    assert(s0.4.update_ok(cur.4, p4, batch_size, params@, r5));
                    assert(s0.5.update_ok(cur.5, p5, batch_size, params@, r6));
                    assert(s0.6.update_ok(cur.6, p6, batch_size, params@, r7));
                    assert(s0.7.update_ok(cur.7, p7, batch_size, params@, r8));
                    assert(s0.8.update_ok(cur.8, p8, batch_size, params@, r9));
                    assert(s0.update_ok(cur, pos, batch_size, params@, r9));
                }
                return Err(e);
            },
        };
        assert(p9 <= m + A::width() + B::width() + C::width() + D::width() + E::width() + F::width() + G::width() + H::width() + I::width());
        let r10 = self.9.update_batch_from_bind(p9, batch_size, params);
        let p10 = match r10 {
            Ok(p) => p,
            Err(e) => {
                proof {
                    let cur = *self;
                    assert(s0.0.update_ok(cur.0, p0, batch_size, params@, r1));
                    assert(s0.1.update_ok(cur.1, p1, batch_size, params@, r2));
                    assert(s0.2.update_ok(cur.2, p2, batch_size, params@, r3));
                    assert(s0.3.update_ok(cur.3, p3, batch_size, params@, r4));
                    assert(s0.4.update_ok(cur.4, p4, batch_size, params@, r5));
                    assert(s0.5.update_ok(cur.5, p5, batch_size, params@, r6));
                    assert(s0.6.update_ok(cur.6, p6, batch_size, params@, r7));
                    assert(s0.7.update_ok(cur.7, p7, batch_size, params@, r8));
                    assert(s0.8.update_ok(cur.8, p8, batch_size, params@, r9));
                    assert(s0.9.update_ok(cur.9, p9, batch_size, params@, r10));
                    assert(s0.update_ok(cur, pos, batch_size, params@, r10));
                }
                return Err(e);
            },
        };
        assert(p10 <= m + A::width() + B::width() + C::width() + D::width() + E::width() + F::width() + G::width() + H::width() + I::width() + J::width());
        let r11 = self.10.update_batch_from_bind(p10, batch_size, params);
        let p11 = match r11 {
            Ok(p) => p,
            Err(e) => {
                proof {
                    let cur = *self;
                    assert(s0.0.update_ok(cur.0, p0, batch_size, params@, r1));
                    assert(s0.1.update_ok(cur.1, p1, batch_size, params@, r2));
                    assert(s0.2.update_ok(cur.2, p2, batch_size, params@, r3));
                    assert(s0.3.update_ok(cur.3, p3, batch_size, params@, r4));
                    assert(s0.4.update_ok(cur.4, p4, batch_size, params@, r5));
                    assert(s0.5.update_ok(cur.5, p5, batch_size, params@, r6));
                    assert(s0.6.update_ok(cur.6, p6, batch_size, params@, r7));
                    assert(s0.7.update_ok(cur.7, p7, batch_size, params@, r8));
                    assert(s0.8.update_ok(cur.8, p8, batch_size, params@, r9));
                    assert(s0.9.update_ok(cur.9, p9, batch_size, params@, r10));
                    assert(s0.10.update_ok(cur.10, p10, batch_size, params@, r11));
                    assert(s0.update_ok(cur, pos, batch_size, params@, r11));
                }
                return Err(e);
            },
        };
        assert(p11 <= m + A::width() + B::width() + C::width() + D::width() + E::width() + F::width() + G::width() + H::width() + I::width() + J::width() + K::width());
        let r12 = self.11.update_batch_from_bind(p11, batch_size, params);
        let p12 = match r12 {
            Ok(p) => p,
            Err(e) => {
                proof {
                    let cur = *self;
                    assert(s0.0.update_ok(cur.0, p0, batch_size, params@, r1));
                    assert(s0.1.update_ok(cur.1, p1, batch_size, params@, r2));
                    assert(s0.2.update_ok(cur.2, p2, batch_size, params@, r3));
                    assert(s0.3.update_ok(cur.3, p3, batch_size, params@, r4));
                    assert(s0.4.update_ok(cur.4, p4, batch_size, params@, r5));
                    assert(s0.5.update_ok(cur.5, p5, batch_size, params@, r6));
                    assert(s0.6.update_ok(cur.6, p6, batch_size, params@, r7));
                    assert(s0.7.update_ok(cur.7, p7, batch_size, params@, r8));
                    assert(s0.8.update_ok(cur.8, p8, batch_size, params@, r9));
                    assert(s0.9.update_ok(cur.9, p9, batch_size, params@, r10));
                    assert(s0.10.update_ok(cur.10, p10, batch_size, params@, r11));
                    assert(s0.11.update_ok(cur.11, p11, batch_size, params@, r12));
                    assert(s0.update_ok(cur, pos, batch_size, params@, r12));
                }
                return Err(e);
            },
        };
        assert(p12 <= m + A::width() + B::width() + C::width() + D::width() + E::width() + F::width() + G::width() + H::width() + I::width() + J::width() + K::width() + L::width());
        let r13 = self.12.update_batch_from_bind(p12, batch_size, params);
        let p13 = match r13 {
            Ok(p) => p,
            Err(e) => {
                proof {
                    let cur = *self;
                    assert(s0.0.update_ok(cur.0, p0, batch_size, params@, r1));
                    assert(s0.1.update_ok(cur.1, p1, batch_size, params@, r2));
                    assert(s0.2.update_ok(cur.2, p2, batch_size, params@, r3));
                    assert(s0.3.update_ok(cur.3, p3, batch_size, params@, r4));
                    assert(s0.4.update_ok(cur.4, p4, batch_size, params@, r5));
                    assert(s0.5.update_ok(cur.5, p5, batch_size, params@, r6));
                    assert(s0.6.update_ok(cur.6, p6, batch_size, params@, r7));
                    assert(s0.7.update_ok(cur.7, p7, batch_size, params@, r8));
                    assert(s0.8.update_ok(cur.8, p8, batch_size, params@, r9));
                    assert(s0.9.update_ok(cur.9, p9, batch_size, params@, r10));
                    assert(s0.10.update_ok(cur.10, p10, batch_size, params@, r11));
                    assert(s0.11.update_ok(cur.11, p11, batch_size, params@, r12));
                    assert(s0.12.update_ok(cur.12, p12, batch_size, params@, r13));
                    assert(s0.update_ok(cur, pos, batch_size, params@, r13));
                }
                return Err(e);
            },
        };
        assert(p13 <= m + A::width() + B::width() + C::width() + D::width() + E::width() + F::width() + G::width() + H::width() + I::width() + J::width() + K::width() + L::width() + M::width());
        let r14 = self.13.update_batch_from_bind(p13, batch_size, params);
        let p14 = match r14 {
            Ok(p) => p,
            Err(e) => {
                proof {
                    let cur = *self;
                    assert(s0.0.update_ok(cur.0, p0, batch_size, params@, r1));
                    assert(s0.1.update_ok(cur.1, p1, batch_size, params@, r2));
                    assert(s0.2.update_ok(cur.2, p2, batch_size, params@, r3));
                    assert(s0.3.update_ok(cur.3, p3, batch_size, params@, r4));
                    assert(s0.4.update_ok(cur.4, p4, batch_size, params@, r5));
                    assert(s0.5.update_ok(cur.5, p5, batch_size, params@, r6));
                    assert(s0.6.update_ok(cur.6, p6, batch_size, params@, r7));
                    assert(s0.7.update_ok(cur.7, p7, batch_size, params@, r8));
                    assert(s0.8.update_ok(cur.8, p8, batch_size, params@, r9));
                    assert(s0.9.update_ok(cur.9, p9, batch_size, params@, r10));
                    assert(s0.10.update_ok(cur.10, p10, batch_size, params@, r11));
                    assert(s0.11.update_ok(cur.11, p11, batch_size, params@, r12));
                    assert(s0.12.update_ok(cur.12, p12, batch_size, params@, r13));
                    assert(s0.13.update_ok(cur.13, p13, batch_size, params@, r14));
                    assert(s0.update_ok(cur, pos, batch_size, params@, r14));
                }
                return Err(e);
            },
        };
        assert(p14 <= m + A::width() + B::width() + C::width() + D::width() + E::width() + F::width() + G::width() + H::width() + I::width() + J::width() + K::width() + L::width() + M::width() + N::width());
        let r15 = self.14.update_batch_from_bind(p14, batch_size, params);
        proof {
                let cur = *self;
                assert(s0.0.update_ok(cur.0, p0, batch_size, params@, r1));
                assert(s0.1.update_ok(cur.1, p1, batch_size, params@, r2));
                assert(s0.2.update_ok(cur.2, p2, batch_size, params@, r3));
                assert(s0.3.update_ok(cur.3, p3, batch_size, params@, r4));
                assert(s0.4.update_ok(cur.4, p4, batch_size, params@, r5));
                assert(s0.5.update_ok(cur.5, p5, batch_size, params@, r6));
                assert(s0.6.update_ok(cur.6, p6, batch_size, params@, r7));
                assert(s0.7.update_ok(cur.7, p7, batch_size, params@, r8));
                assert(s0.8.update_ok(cur.8, p8, batch_size, params@, r9));
                assert(s0.9.update_ok(cur.9, p9, batch_size, params@, r10));
                assert(s0.10.update_ok(cur.10, p10, batch_size, params@, r11));
                assert(s0.11.update_ok(cur.11, p11, batch_size, params@, r12));
                assert(s0.12.update_ok(cur.12, p12, batch_size, params@, r13));
                assert(s0.13.update_ok(cur.13, p13, batch_size, params@, r14));
                assert(s0.14.update_ok(cur.14, p14, batch_size, params@, r15));
            assert(s0.update_ok(cur, pos, batch_size, params@, r15));
        }
        r15
    }
}

impl<A: ToBatchSql, B: ToBatchSql, C: ToBatchSql, D: ToBatchSql, E: ToBatchSql, F: ToBatchSql, G: ToBatchSql, H: ToBatchSql, I: ToBatchSql, J: ToBatchSql, K: ToBatchSql, L: ToBatchSql, M: ToBatchSql, N: ToBatchSql, O: ToBatchSql, P: ToBatchSql> ToBatchSql for (A, B, C, D, E, F, G, H, I, J, K, L, M, N, O, P) {
    open spec fn width() -> nat {
        A::width() + B::width() + C::width() + D::width() + E::width() + F::width() + G::width() + H::width() + I::width() + J::width() + K::width() + L::width() + M::width() + N::width() + O::width() + P::width()
    }

    proof fn lemma_width() {
        A::lemma_width();
    }

    open spec fn bind_ok(&self, pos: usize, pre: BatchParamsView, post: BatchParamsView, r: Result<usize, BatchError>) -> bool {
        exists|m1: BatchParamsView, q1: Result<usize, BatchError>|
            #[trigger] self.0.bind_ok(pos, pre, m1, q1) && match q1 {
                Err(_) => post == m1 && r == q1,
                Ok(p1) => exists|m2: BatchParamsView, q2: Result<usize, BatchError>|
                    #[trigger] self.1.bind_ok(p1, m1, m2, q2) && match q2 {
                        Err(_) => post == m2 && r == q2,
                        Ok(p2) => exists|m3: BatchParamsView, q3: Result<usize, BatchError>|
                            #[trigger] self.2.bind_ok(p2, m2, m3, q3) && match q3 {
                                Err(_) => post == m3 && r == q3,
                                Ok(p3) => exists|m4: BatchParamsView, q4: Result<usize, BatchError>|
                                    #[trigger] self.3.bind_ok(p3, m3, m4, q4) && match q4 {
                                        Err(_) => post == m4 && r == q4,
                                        Ok(p4) => exists|m5: BatchParamsView, q5: Result<usize, BatchError>|
                                            #[trigger] self.4.bind_ok(p4, m4, m5, q5) && match q5 {
                                                Err(_) => post == m5 && r == q5,
                                                Ok(p5) => exists|m6: BatchParamsView, q6: Result<usize, BatchError>|
                                                    #[trigger] self.5.bind_ok(p5, m5, m6, q6) && match q6 {
                                                        Err(_) => post == m6 && r == q6,
                                                        Ok(p6) => exists|m7: BatchParamsView, q7: Result<usize, BatchError>|
                                                            #[trigger] self.6.bind_ok(p6, m6, m7, q7) && match q7 {
                                                                Err(_) => post == m7 && r == q7,
                                                                Ok(p7) => exists|m8: BatchParamsView, q8: Result<usize, BatchError>|
                                                                    #[trigger] self.7.bind_ok(p7, m7, m8, q8) && match q8 {
                                                                        Err(_) => post == m8 && r == q8,
                                                                        Ok(p8) => exists|m9: BatchParamsView, q9: Result<usize, BatchError>|
                                                                            #[trigger] self.8.bind_ok(p8, m8, m9, q9) && match q9 {
                                                                                Err(_) => post == m9 && r == q9,
                                                                                Ok(p9) => exists|m10: BatchParamsView, q10: Result<usize, BatchError>|
                                                                                    #[trigger] self.9.bind_ok(p9, m9, m10, q10) && match q10 {
                                                                                        Err(_) => post == m10 && r == q10,
                                                                                        Ok(p10) => exists|m11: BatchParamsView, q11: Result<usize, BatchError>|
                                                                                            #[trigger] self.10.bind_ok(p10, m10, m11, q11) && match q11 {
                                                                                                Err(_) => post == m11 && r == q11,
                                                                                                Ok(p11) => exists|m12: BatchParamsView, q12: Result<usize, BatchError>|
                                                                                                    #[trigger] self.11.bind_ok(p11, m11, m12, q12) && match q12 {
                                                                                                        Err(_) => post == m12 && r == q12,
                                                                                                        Ok(p12) => exists|m13: BatchParamsView, q13: Result<usize, BatchError>|
                                                                                                            #[trigger] self.12.bind_ok(p12, m12, m13, q13) && match q13 {
                                                                                                                Err(_) => post == m13 && r == q13,
                                                                                                                Ok(p13) => exists|m14: BatchParamsView, q14: Result<usize, BatchError>|
                                                                                                                    #[trigger] self.13.bind_ok(p13, m13, m14, q14) && match q14 {
                                                                                                                        Err(_) => post == m14 && r == q14,
                                                                                                                        Ok(p14) => exists|m15: BatchParamsView, q15: Result<usize, BatchError>|
                                                                                                                            #[trigger] self.14.bind_ok(p14, m14, m15, q15) && match q15 {
                                                                                                                                Err(_) => post == m15 && r == q15,
                                                                                                                                Ok(p15) => self.15.bind_ok(p15, m15, post, r),
                                                                                                                            },
                                                                                                                    },
                                                                                                            },
                                                                                                    },
                                                                                            },
                                                                                    },
                                                                            },
                                                                    },
                                                            },
                                                    },
                                            },
                                    },
                            },
                    },
            }
    }

    open spec fn update_ok(&self, after: Self, pos: usize, batch_size: usize, params: BatchParamsView, r: Result<usize, BatchError>) -> bool {
        exists|q1: Result<usize, BatchError>|
            #[trigger] self.0.update_ok(after.0, pos, batch_size, params, q1) && match q1 {
                Err(_) => after.1 == self.1 && after.2 == self.2 && after.3 == self.3 && after.4 == self.4 && after.5 == self.5 && after.6 == self.6 && after.7 == self.7 && after.8 == self.8 && after.9 == self.9 && after.10 == self.10 && after.11 == self.11 && after.12 == self.12 && after.13 == self.13 && after.14 == self.14 && after.15 == self.15 && r == q1,
                Ok(p1) => exists|q2: Result<usize, BatchError>|
                    #[trigger] self.1.update_ok(after.1, p1, batch_size, params, q2) && match q2 {
                        Err(_) => after.2 == self.2 && after.3 == self.3 && after.4 == self.4 && after.5 == self.5 && after.6 == self.6 && after.7 == self.7 && after.8 == self.8 && after.9 == self.9 && after.10 == self.10 && after.11 == self.11 && after.12 == self.12 && after.13 == self.13 && after.14 == self.14 && after.15 == self.15 && r == q2,
                        Ok(p2) => exists|q3: Result<usize, BatchError>|
                            #[trigger] self.2.update_ok(after.2, p2, batch_size, params, q3) && match q3 {
                                Err(_) => after.3 == self.3 && after.4 == self.4 && after.5 == self.5 && after.6 == self.6 && after.7 == self.7 && after.8 == self.8 && after.9 == self.9 && after.10 == self.10 && after.11 == self.11 && after.12 == self.12 && after.13 == self.13 && after.14 == self.14 && after.15 == self.15 && r == q3,
                                Ok(p3) => exists|q4: Result<usize, BatchError>|
                                    #[trigger] self.3.update_ok(after.3, p3, batch_size, params, q4) && match q4 {
                                        Err(_) => after.4 == self.4 && after.5 == self.5 && after.6 == self.6 && after.7 == self.7 && after.8 == self.8 && after.9 == self.9 && after.10 == self.10 && after.11 == self.11 && after.12 == self.12 && after.13 == self.13 && after.14 == self.14 && after.15 == self.15 && r == q4,
                                        Ok(p4) => exists|q5: Result<usize, BatchError>|
                                            #[trigger] self.4.update_ok(after.4, p4, batch_size, params, q5) && match q5 {
                                                Err(_) => after.5 == self.5 && after.6 == self.6 && after.7 == self.7 && after.8 == self.8 && after.9 == self.9 && after.10 == self.10 && after.11 == self.11 && after.12 == self.12 && after.13 == self.13 && after.14 == self.14 && after.15 == self.15 && r == q5,
                                                Ok(p5) => exists|q6: Result<usize, BatchError>|
                                                    #[trigger] self.5.update_ok(after.5, p5, batch_size, params, q6) && match q6 {
                                                        Err(_) => after.6 == self.6 && after.7 == self.7 && after.8 == self.8 && after.9 == self.9 && after.10 == self.10 && after.11 == self.11 && after.12 == self.12 && after.13 == self.13 && after.14 == self.14 && after.15 == self.15 && r == q6,
                                                        Ok(p6) => exists|q7: Result<usize, BatchError>|
                                                            #[trigger] self.6.update_ok(after.6, p6, batch_size, params, q7) && match q7 {
                                                                Err(_) => after.7 == self.7 && after.8 == self.8 && after.9 == self.9 && after.10 == self.10 && after.11 == self.11 && after.12 == self.12 && after.13 == self.13 && after.14 == self.14 && after.15 == self.15 && r == q7,
                                                                Ok(p7) => exists|q8: Result<usize, BatchError>|
                                                                    #[trigger] self.7.update_ok(after.7, p7, batch_size, params, q8) && match q8 {
                                                                        Err(_) => after.8 == self.8 && after.9 == self.9 && after.10 == self.10 && after.11 == self.11 && after.12 == self.12 && after.13 == self.13 && after.14 == self.14 && after.15 == self.15 && r == q8,
                                                                        Ok(p8) => exists|q9: Result<usize, BatchError>|
                                                                            #[trigger] self.8.update_ok(after.8, p8, batch_size, params, q9) && match q9 {
                                                                                Err(_) => after.9 == self.9 && after.10 == self.10 && after.11 == self.11 && after.12 == self.12 && after.13 == self.13 && after.14 == self.14 && after.15 == self.15 && r == q9,
                                                                                Ok(p9) => exists|q10: Result<usize, BatchError>|
                                                                                    #[trigger] self.9.update_ok(after.9, p9, batch_size, params, q10) && match q10 {
                                                                                        Err(_) => after.10 == self.10 && after.11 == self.11 && after.12 == self.12 && after.13 == self.13 && after.14 == self.14 && after.15 == self.15 && r == q10,
                                                                                        Ok(p10) => exists|q11: Result<usize, BatchError>|
                                                                                            #[trigger] self.10.update_ok(after.10, p10, batch_size, params, q11) && match q11 {
                                                                                                Err(_) => after.11 == self.11 && after.12 == self.12 && after.13 == self.13 && after.14 == self.14 && after.15 == self.15 && r == q11,
                                                                                                Ok(p11) => exists|q12: Result<usize, BatchError>|
                                                                                                    #[trigger] self.11.update_ok(after.11, p11, batch_size, params, q12) && match q12 {
                                                                                                        Err(_) => after.12 == self.12 && after.13 == self.13 && after.14 == self.14 && after.15 == self.15 && r == q12,
                                                                                                        Ok(p12) => exists|q13: Result<usize, BatchError>|
                                                                                                            #[trigger] self.12.update_ok(after.12, p12, batch_size, params, q13) && match q13 {
                                                                                                                Err(_) => after.13 == self.13 && after.14 == self.14 && after.15 == self.15 && r == q13,
                                                                                                                Ok(p13) => exists|q14: Result<usize, BatchError>|
                                                                                                                    #[trigger] self.13.update_ok(after.13, p13, batch_size, params, q14) && match q14 {
                                                                                                                        Err(_) => after.14 == self.14 && after.15 == self.15 && r == q14,
                                                                                                                        Ok(p14) => exists|q15: Result<usize, BatchError>|
                                                                                                                            #[trigger] self.14.update_ok(after.14, p14, batch_size, params, q15) && match q15 {
                                                                                                                                Err(_) => after.15 == self.15 && r == q15,
                                                                                                                                Ok(p15) => self.15.update_ok(after.15, p15, batch_size, params, r),
                                                                                                                            },
                                                                                                                    },
                                                                                                            },
                                                                                                    },
                                                                                            },
                                                                                    },
                                                                            },
                                                                    },
                                                            },
                                                    },
                                            },
                                    },
                            },
                    },
            }
    }

    /// Binds the arguments one after the other, each from the position the
    /// one before it gives back; the first refusal ends it.
    fn bind_batch_to(&mut self, pos: usize, batch_size: usize, params: &mut BatchParams) -> (r: Result<usize, BatchError>) {
        let ghost s0 = *self;
        let ghost v0 = params@;
        let ghost c = v0.count();
        let ghost m = if pos >= c { pos as nat } else { c };
        proof {
            assert(next_bound(pos, c, Self::width()) == m + Self::width());
        }
        let p0 = pos;
        let r1 = self.0.bind_batch_to(p0, batch_size, params);
        let ghost v1 = params@;
        let p1 = match r1 {
            Ok(p) => p,
            Err(e) => {
                proof {
                    assert(s0.0.bind_ok(p0, v0, v1, r1));
                    assert(s0.bind_ok(pos, v0, v1, r1));
                }
                return Err(e);
            },
        };
        assert(v1.count() == c && p1 <= m + A::width());
        let r2 = self.1.bind_batch_to(p1, batch_size, params);
        let ghost v2 = params@;
        let p2 = match r2 {
            Ok(p) => p,
            Err(e) => {
                proof {
                    assert(s0.0.bind_ok(p0, v0, v1, r1));
                    assert(s0.1.bind_ok(p1, v1, v2, r2));
                    assert(s0.bind_ok(pos, v0, v2, r2));
                }
                return Err(e);
            },
        };
        assert(v2.count() == c && p2 <= m + A::width() + B::width());
        let r3 = self.2.bind_batch_to(p2, batch_size, params);
        let ghost v3 = params@;
        let p3 = match r3 {
            Ok(p) => p,
            Err(e) => {
                proof {
                    assert(s0.0.bind_ok(p0, v0, v1, r1));
                    assert(s0.1.bind_ok(p1, v1, v2, r2));
                    assert(s0.2.bind_ok(p2, v2, v3, r3));
                    assert(s0.bind_ok(pos, v0, v3, r3));
                }
                return Err(e);
            },
        };
        assert(v3.count() == c && p3 <= m + A::width() + B::width() + C::width());
        let r4 = self.3.bind_batch_to(p3, batch_size, params);
        let ghost v4 = params@;
        let p4 = match r4 {
            Ok(p) => p,
            Err(e) => {
                proof {
                    assert(s0.0.bind_ok(p0, v0, v1, r1));
                    assert(s0.1.bind_ok(p1, v1, v2, r2));
                    assert(s0.2.bind_ok(p2, v2, v3, r3));
                    assert(s0.3.bind_ok(p3, v3, v4, r4));
                    assert(s0.bind_ok(pos, v0, v4, r4));
                }
                return Err(e);
            },
        };
        assert(v4.count() == c && p4 <= m + A::width() + B::width() + C::width() + D::width());
        let r5 = self.4.bind_batch_to(p4, batch_size, params);
        let ghost v5 = params@;
        let p5 = match r5 {
            Ok(p) => p,
            Err(e) => {
                proof {
                    assert(s0.0.bind_ok(p0, v0, v1, r1));
                    assert(s0.1.bind_ok(p1, v1, v2, r2));
                    assert(s0.2.bind_ok(p2, v2, v3, r3));
                    assert(s0.3.bind_ok(p3, v3, v4, r4));
                    assert(s0.4.bind_ok(p4, v4, v5, r5));
                    assert(s0.bind_ok(pos, v0, v5, r5));
                }
                return Err(e);
            },
        };
        assert(v5.count() == c && p5 <= m + A::width() + B::width() + C::width() + D::width() + E::width());
        let r6 = self.5.bind_batch_to(p5, batch_size, params);
        let ghost v6 = params@;
        let p6 = match r6 {
            Ok(p) => p,
            Err(e) => {
                proof {
                    assert(s0.0.bind_ok(p0, v0, v1, r1));
                    assert(s0.1.bind_ok(p1, v1, v2, r2));
                    assert(s0.2.bind_ok(p2, v2, v3, r3));
                    assert(s0.3.bind_ok(p3, v3, v4, r4));
                    assert(s0.4.bind_ok(p4, v4, v5, r5));
                    assert(s0.5.bind_ok(p5, v5, v6, r6));
                    assert(s0.bind_ok(pos, v0, v6, r6));
                }
                return Err(e);
            },
        };
        assert(v6.count() == c && p6 <= m + A::width() + B::width() + C::width() + D::width() + E::width() + F::width());
        let r7 = self.6.bind_batch_to(p6, batch_size, params);
        let ghost v7 = params@;
        let p7 = match r7 {
            Ok(p) => p,
            Err(e) => {
                proof {
                    assert(s0.0.bind_ok(p0, v0, v1, r1));
                    assert(s0.1.bind_ok(p1, v1, v2, r2));
                    assert(s0.2.bind_ok(p2, v2, v3, r3));
                    assert(s0.3.bind_ok(p3, v3, v4, r4));
                    assert(s0.4.bind_ok(p4, v4, v5, r5));
                    assert(s0.5.bind_ok(p5, v5, v6, r6));
                    assert(s0.6.bind_ok(p6, v6, v7, r7));
                    assert(s0.bind_ok(pos, v0, v7, r7));
                }
                return Err(e);
            },
        };
        assert(v7.count() == c && p7 <= m + A::width() + B::width() + C::width() + D::width() + E::width() + F::width() + G::width());
        let r8 = self.7.bind_batch_to(p7, batch_size, params);
        let ghost v8 = params@;
        let p8 = match r8 {
            Ok(p) => p,
            Err(e) => {
                proof {
                    assert(s0.0.bind_ok(p0, v0, v1, r1));
                    assert(s0.1.bind_ok(p1, v1, v2, r2));
                    assert(s0.2.bind_ok(p2, v2, v3, r3));
                    assert(s0.3.bind_ok(p3, v3, v4, r4));
                    assert(s0.4.bind_ok(p4, v4, v5, r5));
                    assert(s0.5.bind_ok(p5, v5, v6, r6));
                    assert(s0.6.bind_ok(p6, v6, v7, r7));
                    assert(s0.7.bind_ok(p7, v7, v8, r8));
                    assert(s0.bind_ok(pos, v0, v8, r8));
                }
                return Err(e);
            },
        };
        assert(v8.count() == c && p8 <= m + A::width() + B::width() + C::width() + D::width() + E::width() + F::width() + G::width() + H::width());
        let r9 = self.8.bind_batch_to(p8, batch_size, params);
        let ghost v9 = params@;
        let p9 = match r9 {
            Ok(p) => p,
            Err(e) => {
                proof {
                    assert(s0.0.bind_ok(p0, v0, v1, r1));
                    assert(s0.1.bind_ok(p1, v1, v2, r2));
                    assert(s0.2.bind_ok(p2, v2, v3, r3));
                    assert(s0.3.bind_ok(p3, v3, v4, r4));
                    assert(s0.4.bind_ok(p4, v4, v5, r5));
                    assert(s0.5.bind_ok(p5, v5, v6, r6));
                    assert(s0.6.bind_ok(p6, v6, v7, r7));
                    assert(s0.7.bind_ok(p7, v7, v8, r8));
                    assert(s0.8.bind_ok(p8, v8, v9, r9));
                    assert(s0.bind_ok(pos, v0, v9, r9));
                }
                return Err(e);
            },
        };
        assert(v9.count() == c && p9 <= m + A::width() + B::width() + C::width() + D::width() + E::width() + F::width() + G::width() + H::width() + I::width());
        let r10 = self.9.bind_batch_to(p9, batch_size, params);
        let ghost v10 = params@;
        let p10 = match r10 {
            Ok(p) => p,
            Err(e) => {
                proof {
                    assert(s0.0.bind_ok(p0, v0, v1, r1));
                    assert(s0.1.bind_ok(p1, v1, v2, r2));
                    assert(s0.2.bind_ok(p2, v2, v3, r3));
                    assert(s0.3.bind_ok(p3, v3, v4, r4));
                    assert(s0.4.bind_ok(p4, v4, v5, r5));
                    assert(s0.5.bind_ok(p5, v5, v6, r6));
                    assert(s0.6.bind_ok(p6, v6, v7, r7));
                    assert(s0.7.bind_ok(p7, v7, v8, r8));
                    assert(s0.8.bind_ok(p8, v8, v9, r9));
                    assert(s0.9.bind_ok(p9, v9, v10, r10));
                    assert(s0.bind_ok(pos, v0, v10, r10));
                }
                return Err(e);
            },
        };
        assert(v10.count() == c && p10 <= m + A::width() + B::width() + C::width() + D::width() + E::width() + F::width() + G::width() + H::width() + I::width() + J::width());
        let r11 = self.10.bind_batch_to(p10, batch_size, params);
        let ghost v11 = params@;
        let p11 = match r11 {
            Ok(p) => p,
            Err(e) => {
                proof {
                    assert(s0.0.bind_ok(p0, v0, v1, r1));
                    assert(s0.1.bind_ok(p1, v1, v2, r2));
                    assert(s0.2.bind_ok(p2, v2, v3, r3));
                    assert(s0.3.bind_ok(p3, v3, v4, r4));
                    assert(s0.4.bind_ok(p4, v4, v5, r5));
                    assert(s0.5.bind_ok(p5, v5, v6, r6));
                    assert(s0.6.bind_ok(p6, v6, v7, r7));
                    assert(s0.7.bind_ok(p7, v7, v8, r8));
                    assert(s0.8.bind_ok(p8, v8, v9, r9));
                    assert(s0.9.bind_ok(p9, v9, v10, r10));
                    assert(s0.10.bind_ok(p10, v10, v11, r11));
                    assert(s0.bind_ok(pos, v0, v11, r11));
                }
                return Err(e);
            },
        };
        assert(v11.count() == c && p11 <= m + A::width() + B::width() + C::width() + D::width() + E::width() + F::width() + G::width() + H::width() + I::width() + J::width() + K::width());
        let r12 = self.11.bind_batch_to(p11, batch_size, params);
        let ghost v12 = params@;
        let p12 = match r12 {
            Ok(p) => p,
            Err(e) => {
                proof {
                    assert(s0.0.bind_ok(p0, v0, v1, r1));
                    assert(s0.1.bind_ok(p1, v1, v2, r2));
                    assert(s0.2.bind_ok(p2, v2, v3, r3));
                    assert(s0.3.bind_ok(p3, v3, v4, r4));
                    assert(s0.4.bind_ok(p4, v4, v5, r5));
                    assert(s0.5.bind_ok(p5, v5, v6, r6));
                    assert(s0.6.bind_ok(p6, v6, v7, r7));
                    assert(s0.7.bind_ok(p7, v7, v8, r8));
                    assert(s0.8.bind_ok(p8, v8, v9, r9));
                    assert(s0.9.bind_ok(p9, v9, v10, r10));
                    assert(s0.10.bind_ok(p10, v10, v11, r11));
                    assert(s0.11.bind_ok(p11, v11, v12, r12));
                    assert(s0.bind_ok(pos, v0, v12, r12));
                }
                return Err(e);
            },
        };
        assert(v12.count() == c && p12 <= m + A::width() + B::width() + C::width() + D::width() + E::width() + F::width() + G::width() + H::width() + I::width() + J::width() + K::width() + L::width());
        let r13 = self.12.bind_batch_to(p12, batch_size, params);
        let ghost v13 = params@;
        let p13 = match r13 {
            Ok(p) => p,
            Err(e) => {
                proof {
                    assert(s0.0.bind_ok(p0, v0, v1, r1));
                    assert(s0.1.bind_ok(p1, v1, v2, r2));
                    assert(s0.2.bind_ok(p2, v2, v3, r3));
                    assert(s0.3.bind_ok(p3, v3, v4, r4));
                    assert(s0.4.bind_ok(p4, v4, v5, r5));
                    assert(s0.5.bind_ok(p5, v5, v6, r6));
                    assert(s0.6.bind_ok(p6, v6, v7, r7));
                    assert(s0.7.bind_ok(p7, v7, v8, r8));
                    assert(s0.8.bind_ok(p8, v8, v9, r9));
                    assert(s0.9.bind_ok(p9, v9, v10, r10));
                    assert(s0.10.bind_ok(p10, v10, v11, r11));
                    assert(s0.11.bind_ok(p11, v11, v12, r12));
                    assert(s0.12.bind_ok(p12, v12, v13, r13));
                    assert(s0.bind_ok(pos, v0, v13, r13));
                }
                return Err(e);
            },
        };
        assert(v13.count() == c && p13 <= m + A::width() + B::width() + C::width() + D::width() + E::width() + F::width() + G::width() + H::width() + I::width() + J::width() + K::width() + L::width() + M::width());
        let r14 = self.13.bind_batch_to(p13, batch_size, params);
        let ghost v14 = params@;
        let p14 = match r14 {
            Ok(p) => p,
            Err(e) => {
                proof {
                    assert(s0.0.bind_ok(p0, v0, v1, r1));
                    assert(s0.1.bind_ok(p1, v1, v2, r2));
                    assert(s0.2.bind_ok(p2, v2, v3, r3));
                    assert(s0.3.bind_ok(p3, v3, v4, r4));
                    assert(s0.4.bind_ok(p4, v4, v5, r5));
                    assert(s0.5.bind_ok(p5, v5, v6, r6));
                    assert(s0.6.bind_ok(p6, v6, v7, r7));
                    assert(s0.7.bind_ok(p7, v7, v8, r8));
                    assert(s0.8.bind_ok(p8, v8, v9, r9));
                    assert(s0.9.bind_ok(p9, v9, v10, r10));
                    assert(s0.10.bind_ok(p10, v10, v11, r11));
                    assert(s0.11.bind_ok(p11, v11, v12, r12));
                    assert(s0.12.bind_ok(p12, v12, v13, r13));
                    assert(s0.13.bind_ok(p13, v13, v14, r14));
                    assert(s0.bind_ok(pos, v0, v14, r14));
                }
                return Err(e);
            },
        };
        assert(v14.count() == c && p14 <= m + A::width() + B::width() + C::width() + D::width() + E::width() + F::width() + G::width() + H::width() + I::width() + J::width() + K::width() + L::width() + M::width() + N::width());
        let r15 = self.14.bind_batch_to(p14, batch_size, params);
        let ghost v15 = params@;
        let p15 = match r15 {
            Ok(p) => p,
            Err(e) => {
                proof {
                    assert(s0.0.bind_ok(p0, v0, v1, r1));
                    assert(s0.1.bind_ok(p1, v1, v2, r2));
                    assert(s0.2.bind_ok(p2, v2, v3, r3));
                    assert(s0.3.bind_ok(p3, v3, v4, r4));
                    assert(s0.4.bind_ok(p4, v4, v5, r5));
                    assert(s0.5.bind_ok(p5, v5, v6, r6));
                    assert(s0.6.bind_ok(p6, v6, v7, r7));
                    assert(s0.7.bind_ok(p7, v7, v8, r8));
                    assert(s0.8.bind_ok(p8, v8, v9, r9));
                    assert(s0.9.bind_ok(p9, v9, v10, r10));
                    assert(s0.10.bind_ok(p10, v10, v11, r11));
                    assert(s0.11.bind_ok(p11, v11, v12, r12));
                    assert(s0.12.bind_ok(p12, v12, v13, r13));
                    assert(s0.13.bind_ok(p13, v13, v14, r14));
                    assert(s0.14.bind_ok(p14, v14, v15, r15));
                    assert(s0.bind_ok(pos, v0, v15, r15));
                }
                return Err(e);
            },
        };
        assert(v15.count() == c && p15 <= m + A::width() + B::width() + C::width() + D::width() + E::width() + F::width() + G::width() + H::width() + I::width() + J::width() + K::width() + L::width() + M::width() + N::width() + O::width());
        let r16 = self.15.bind_batch_to(p15, batch_size, params);
        let ghost v16 = params@;
        proof {
            assert(s0.0.bind_ok(p0, v0, v1, r1));
            assert(s0.1.bind_ok(p1, v1, v2, r2));
            assert(s0.2.bind_ok(p2, v2, v3, r3));
            assert(s0.3.bind_ok(p3, v3, v4, r4));
            assert(s0.4.bind_ok(p4, v4, v5, r5));
            assert(s0.5.bind_ok(p5, v5, v6, r6));
            assert(s0.6.bind_ok(p6, v6, v7, r7));
            assert(s0.7.bind_ok(p7, v7, v8, r8));
            assert(s0.8.bind_ok(p8, v8, v9, r9));
            assert(s0.9.bind_ok(p9, v9, v10, r10));
            assert(s0.10.bind_ok(p10, v10, v11, r11));
            assert(s0.11.bind_ok(p11, v11, v12, r12));
            assert(s0.12.bind_ok(p12, v12, v13, r13));
            assert(s0.13.bind_ok(p13, v13, v14, r14));
            assert(s0.14.bind_ok(p14, v14, v15, r15));
            assert(s0.15.bind_ok(p15, v15, v16, r16));
            assert(s0.bind_ok(pos, v0, v16, r16));
        }
        r16
    }

    /// Updates the arguments one after the other; the first refusal ends it.
    fn update_batch_from_bind(&mut self, pos: usize, batch_size: usize, params: &BatchParams) -> (r: Result<usize, BatchError>) {
        let ghost s0 = *self;
        let ghost c = params@.count();
        let ghost m = if pos >= c { pos as nat } else { c };
        proof {
            assert(next_bound(pos, c, Self::width()) == m + Self::width());
        }
        let p0 = pos;
        let r1 = self.0.update_batch_from_bind(p0, batch_size, params);
        let p1 = match r1 {
            Ok(p) => p,
            Err(e) => {
                proof {
                    let cur = *self;
                    assert(s0.0.update_ok(cur.0, p0, batch_size, params@, r1));
                    assert(s0.update_ok(cur, pos, batch_size, params@, r1));
                }
                return Err(e);
            },
        };
        assert(p1 <= m + A::width());
        let r2 = self.1.update_batch_from_bind(p1, batch_size, params);
        let p2 = match r2 {
            Ok(p) => p,
            Err(e) => {
                proof {
                    let cur = *self;
                    assert(s0.0.update_ok(cur.0, p0, batch_size, params@, r1));
                    assert(s0.1.update_ok(cur.1, p1, batch_size, params@, r2));
                    assert(s0.update_ok(cur, pos, batch_size, params@, r2));
                }
                return Err(e);
            },
        };
        assert(p2 <= m + A::width() + B::width());
        let r3 = self.2.update_batch_from_bind(p2, batch_size, params);
        let p3 = match r3 {
            Ok(p) => p,
            Err(e) => {
                proof {
                    let cur = *self;
                    assert(s0.0.update_ok(cur.0, p0, batch_size, params@, r1));
                    assert(s0.1.update_ok(cur.1, p1, batch_size, params@, r2));
                    assert(s0.2.update_ok(cur.2, p2, batch_size, params@, r3));
                    assert(s0.update_ok(cur, pos, batch_size, params@, r3));
                }
                return Err(e);
            },
        };
        assert(p3 <= m + A::width() + B::width() + C::width());
        let r4 = self.3.update_batch_from_bind(p3, batch_size, params);
        let p4 = match r4 {
            Ok(p) => p,
            Err(e) => {
                proof {
                    let cur = *self;
                    assert(s0.0.update_ok(cur.0, p0, batch_size, params@, r1));
                    assert(s0.1.update_ok(cur.1, p1, batch_size, params@, r2));
                    assert(s0.2.update_ok(cur.2, p2, batch_size, params@, r3));
                    assert(s0.3.update_ok(cur.3, p3, batch_size, params@, r4));
                    assert(s0.update_ok(cur, pos, batch_size, params@, r4));
                }
                return Err(e);
            },
        };
        assert(p4 <= m + A::width() + B::width() + C::width() + D::width());
        let r5 = self.4.update_batch_from_bind(p4, batch_size, params);
        let p5 = match r5 {
            Ok(p) => p,
            Err(e) => {
                proof {
                    let cur = *self;
                    assert(s0.0.update_ok(cur.0, p0, batch_size, params@, r1));
                    assert(s0.1.update_ok(cur.1, p1, batch_size, params@, r2));
                    assert(s0.2.update_ok(cur.2, p2, batch_size, params@, r3));
                    assert(s0.3.update_ok(cur.3, p3, batch_size, params@, r4));
                    assert(s0.4.update_ok(cur.4, p4, batch_size, params@, r5));
                    assert(s0.update_ok(cur, pos, batch_size, params@, r5));
                }
                return Err(e);
            },
        };
        assert(p5 <= m + A::width() + B::width() + C::width() + D::width() + E::width());
        let r6 = self.5.update_batch_from_bind(p5, batch_size, params);
        let p6 = match r6 {
            Ok(p) => p,
            Err(e) => {
                proof {
                    let cur = *self;
                    assert(s0.0.update_ok(cur.0, p0, batch_size, params@, r1));
                    assert(s0.1.update_ok(cur.1, p1, batch_size, params@, r2));
                    assert(s0.2.update_ok(cur.2, p2, batch_size, params@, r3));
                    assert(s0.3.update_ok(cur.3, p3, batch_size, params@, r4));
                    assert(s0.4.update_ok(cur.4, p4, batch_size, params@, r5));
                    assert(s0.5.update_ok(cur.5, p5, batch_size, params@, r6));
                    assert(s0.update_ok(cur, pos, batch_size, params@, r6));
                }
                return Err(e);
            },
        };
        assert(p6 <= m + A::width() + B::width() + C::width() + D::width() + E::width() + F::width());
        let r7 = self.6.update_batch_from_bind(p6, batch_size, params);
        let p7 = match r7 {
            Ok(p) => p,
            Err(e) => {
                proof {
                    let cur = *self;
                    assert(s0.0.update_ok(cur.0, p0, batch_size, params@, r1));
                    assert(s0.1.update_ok(cur.1, p1, batch_size, params@, r2));
                    assert(s0.2.update_ok(cur.2, p2, batch_size, params@, r3));
                    assert(s0.3.update_ok(cur.3, p3, batch_size, params@, r4));
                    assert(s0.4.update_ok(cur.4, p4, batch_size, params@, r5));
                    assert(s0.5.update_ok(cur.5, p5, batch_size, params@, r6));
                    assert(s0.6.update_ok(cur.6, p6, batch_size, params@, r7));
                    assert(s0.update_ok(cur, pos, batch_size, params@, r7));
                }
                return Err(e);
            },
        };
        assert(p7 <= m + A::width() + B::width() + C::width() + D::width() + E::width() + F::width() + G::width());
        let r8 = self.7.update_batch_from_bind(p7, batch_size, params);
        let p8 = match r8 {
            Ok(p) => p,
            Err(e) => {
                proof {
                    let cur = *self;
                    assert(s0.0.update_ok(cur.0, p0, batch_size, params@, r1));
                    assert(s0.1.update_ok(cur.1, p1, batch_size, params@, r2));
                    assert(s0.2.update_ok(cur.2, p2, batch_size, params@, r3));
                    assert(s0.3.update_ok(cur.3, p3, batch_size, params@, r4));
                    assert(s0.4.update_ok(cur.4, p4, batch_size, params@, r5));
                    assert(s0.5.update_ok(cur.5, p5, batch_size, params@, r6));
                    assert(s0.6.update_ok(cur.6, p6, batch_size, params@, r7));
                    assert(s0.7.update_ok(cur.7, p7, batch_size, params@, r8));
                    assert(s0.update_ok(cur, pos, batch_size, params@, r8));
                }
                return Err(e);
            },
        };
        assert(p8 <= m + A::width() + B::width() + C::width() + D::width() + E::width() + F::width() + G::width() + H::width());
        let r9 = self.8.update_batch_from_bind(p8, batch_size, params);
        let p9 = match r9 {
            Ok(p) => p,
            Err(e) => {
                proof {
                    let cur = *self;
                    assert(s0.0.update_ok(cur.0, p0, batch_size, params@, r1));
                    assert(s0.1.update_ok(cur.1, p1, batch_size, params@, r2));
                    assert(s0.2.update_ok(cur.2, p2, batch_size, params@, r3));
                    assert(s0.3.update_ok(cur.3, p3, batch_size, params@, r4));
                    assert(s0.4.update_ok(cur.4, p4, batch_size, params@, r5));
                    assert(s0.5.update_ok(cur.5, p5, batch_size, params@, r6));
                    assert(s0.6.update_ok(cur.6, p6, batch_size, params@, r7));
                    assert(s0.7.update_ok(cur.7, p7, batch_size, params@, r8));
                    assert(s0.8.update_ok(cur.8, p8, batch_size, params@, r9));
                    assert(s0.update_ok(cur, pos, batch_size, params@, r9));
                }
                return Err(e);
            },
        };
        assert(p9 <= m + A::width() + B::width() + C::width() + D::width() + E::width() + F::width() + G::width() + H::width() + I::width());
        let r10 = self.9.update_batch_from_bind(p9, batch_size, params);
        let p10 = match r10 {
            Ok(p) => p,
            Err(e) => {
                proof {
                    let cur = *self;
                    assert(s0.0.update_ok(cur.0, p0, batch_size, params@, r1));
                    assert(s0.1.update_ok(cur.1, p1, batch_size, params@, r2));
                    assert(s0.2.update_ok(cur.2, p2, batch_size, params@, r3));
                    assert(s0.3.update_ok(cur.3, p3, batch_size, params@, r4));
                    assert(s0.4.update_ok(cur.4, p4, batch_size, params@, r5));
                    assert(s0.5.update_ok(cur.5, p5, batch_size, params@, r6));
                    assert(s0.6.update_ok(cur.6, p6, batch_size, params@, r7));
                    assert(s0.7.update_ok(cur.7, p7, batch_size, params@, r8));
                    assert(s0.8.update_ok(cur.8, p8, batch_size, params@, r9));
                    assert(s0.9.update_ok(cur.9, p9, batch_size, params@, r10));
                    assert(s0.update_ok(cur, pos, batch_size, params@, r10));
                }
                return Err(e);
            },
        };
        assert(p10 <= m + A::width() + B::width() + C::width() + D::width() + E::width() + F::width() + G::width() + H::width() + I::width() + J::width());
        let r11 = self.10.update_batch_from_bind(p10, batch_size, params);
        let p11 = match r11 {
            Ok(p) => p,
            Err(e) => {
                proof {
                    let cur = *self;
                    assert(s0.0.update_ok(cur.0, p0, batch_size, params@, r1));
                    assert(s0.1.update_ok(cur.1, p1, batch_size, params@, r2));
                    assert(s0.2.update_ok(cur.2, p2, batch_size, params@, r3));
                    assert(s0.3.update_ok(cur.3, p3, batch_size, params@, r4));
                    assert(s0.4.update_ok(cur.4, p4, batch_size, params@, r5));
                    assert(s0.5.update_ok(cur.5, p5, batch_size, params@, r6));
                    assert(s0.6.update_ok(cur.6, p6, batch_size, params@, r7));
                    assert(s0.7.update_ok(cur.7, p7, batch_size, params@, r8));
                    assert(s0.8.update_ok(cur.8, p8, batch_size, params@, r9));
                    assert(s0.9.update_ok(cur.9, p9, batch_size, params@, r10));
                    assert(s0.10.update_ok(cur.10, p10, batch_size, params@, r11));
                    assert(s0.update_ok(cur, pos, batch_size, params@, r11));
                }
                return Err(e);
            },
        };
        assert(p11 <= m + A::width() + B::width() + C::width() + D::width() + E::width() + F::width() + G::width() + H::width() + I::width() + J::width() + K::width());
        let r12 = self.11.update_batch_from_bind(p11, batch_size, params);
        let p12 = match r12 {
            Ok(p) => p,
            Err(e) => {
                proof {
                    let cur = *self;
                    assert(s0.0.update_ok(cur.0, p0, batch_size, params@, r1));
                    assert(s0.1.update_ok(cur.1, p1, batch_size, params@, r2));
                    assert(s0.2.update_ok(cur.2, p2, batch_size, params@, r3));
                    assert(s0.3.update_ok(cur.3, p3, batch_size, params@, r4));
                    assert(s0.4.update_ok(cur.4, p4, batch_size, params@, r5));
                    assert(s0.5.update_ok(cur.5, p5, batch_size, params@, r6));
                    assert(s0.6.update_ok(cur.6, p6, batch_size, params@, r7));
                    assert(s0.7.update_ok(cur.7, p7, batch_size, params@, r8));
                    assert(s0.8.update_ok(cur.8, p8, batch_size, params@, r9));
                    assert(s0.9.update_ok(cur.9, p9, batch_size, params@, r10));
                    assert(s0.10.update_ok(cur.10, p10, batch_size, params@, r11));
                    assert(s0.11.update_ok(cur.11, p11, batch_size, params@, r12));
                    assert(s0.update_ok(cur, pos, batch_size, params@, r12));
                }
                return Err(e);
            },
        };
        assert(p12 <= m + A::width() + B::width() + C::width() + D::width() + E::width() + F::width() + G::width() + H::width() + I::width() + J::width() + K::width() + L::width());
        let r13 = self.12.update_batch_from_bind(p12, batch_size, params);
        let p13 = match r13 {
            Ok(p) => p,
            Err(e) => {
                proof {
                    let cur = *self;
                    assert(s0.0.update_ok(cur.0, p0, batch_size, params@, r1));
                    assert(s0.1.update_ok(cur.1, p1, batch_size, params@, r2));
                    assert(s0.2.update_ok(cur.2, p2, batch_size, params@, r3));
                    assert(s0.3.update_ok(cur.3, p3, batch_size, params@, r4));
                    assert(s0.4.update_ok(cur.4, p4, batch_size, params@, r5));
                    assert(s0.5.update_ok(cur.5, p5, batch_size, params@, r6));
                    assert(s0.6.update_ok(cur.6, p6, batch_size, params@, r7));
                    assert(s0.7.update_ok(cur.7, p7, batch_size, params@, r8));
                    assert(s0.8.update_ok(cur.8, p8, batch_size, params@, r9));
                    assert(s0.9.update_ok(cur.9, p9, batch_size, params@, r10));
                    assert(s0.10.update_ok(cur.10, p10, batch_size, params@, r11));
                    assert(s0.11.update_ok(cur.11, p11, batch_size, params@, r12));
                    assert(s0.12.update_ok(cur.12, p12, batch_size, params@, r13));
                    assert(s0.update_ok(cur, pos, batch_size, params@, r13));
                }
                return Err(e);
            },
        };
        assert(p13 <= m + A::width() + B::width() + C::width() + D::width() + E::width() + F::width() + G::width() + H::width() + I::width() + J::width() + K::width() + L::width() + M::width());
        let r14 = self.13.update_batch_from_bind(p13, batch_size, params);
        let p14 = match r14 {
            Ok(p) => p,
            Err(e) => {
                proof {
                    let cur = *self;
                    assert(s0.0.update_ok(cur.0, p0, batch_size, params@, r1));
                    assert(s0.1.update_ok(cur.1, p1, batch_size, params@, r2));
                    assert(s0.2.update_ok(cur.2, p2, batch_size, params@, r3));
                    assert(s0.3.update_ok(cur.3, p3, batch_size, params@, r4));
                    assert(s0.4.update_ok(cur.4, p4, batch_size, params@, r5));
                    assert(s0.5.update_ok(cur.5, p5, batch_size, params@, r6));
                    assert(s0.6.update_ok(cur.6, p6, batch_size, params@, r7));
                    assert(s0.7.update_ok(cur.7, p7, batch_size, params@, r8));
                    assert(s0.8.update_ok(cur.8, p8, batch_size, params@, r9));
                    assert(s0.9.update_ok(cur.9, p9, batch_size, params@, r10));
                    assert(s0.10.update_ok(cur.10, p10, batch_size, params@, r11));
                    assert(s0.11.update_ok(cur.11, p11, batch_size, params@, r12));
                    assert(s0.12.update_ok(cur.12, p12, batch_size, params@, r13));
                    assert(s0.13.update_ok(cur.13, p13, batch_size, params@, r14));
                    assert(s0.update_ok(cur, pos, batch_size, params@, r14));
                }
                return Err(e);
            },
        };
        assert(p14 <= m + A::width() + B::width() + C::width() + D::width() + E::width() + F::width() + G::width() + H::width() + I::width() + J::width() + K::width() + L::width() + M::width() + N::width());
        let r15 = self.14.update_batch_from_bind(p14, batch_size, params);
        let p15 = match r15 {
            Ok(p) => p,
            Err(e) => {
                proof {
                    let cur = *self;
                    assert(s0.0.update_ok(cur.0, p0, batch_size, params@, r1));
                    assert(s0.1.update_ok(cur.1, p1, batch_size, params@, r2));
                    assert(s0.2.update_ok(cur.2, p2, batch_size, params@, r3));
                    assert(s0.3.update_ok(cur.3, p3, batch_size, params@, r4));
                    assert(s0.4.update_ok(cur.4, p4, batch_size, params@, r5));
                    assert(s0.5.update_ok(cur.5, p5, batch_size, params@, r6));
                    assert(s0.6.update_ok(cur.6, p6, batch_size, params@, r7));
                    assert(s0.7.update_ok(cur.7, p7, batch_size, params@, r8));
                    assert(s0.8.update_ok(cur.8, p8, batch_size, params@, r9));
                    assert(s0.9.update_ok(cur.9, p9, batch_size, params@, r10));
                    assert(s0.10.update_ok(cur.10, p10, batch_size, params@, r11));
                    assert(s0.11.update_ok(cur.11, p11, batch_size, params@, r12));
                    assert(s0.12.update_ok(cur.12, p12, batch_size, params@, r13));
                    assert(s0.13.update_ok(cur.13, p13, batch_size, params@, r14));
                    assert(s0.14.update_ok(cur.14, p14, batch_size, params@, r15));
                    assert(s0.update_ok(cur, pos, batch_size, params@, r15));
                }
                return Err(e);
            },
        };
        assert(p15 <= m + A::width() + B::width() + C::width() + D::width() + E::width() + F::width() + G::width() + H::width() + I::width() + J::width() + K::width() + L::width() + M::width() + N::width() + O::width());
        let r16 = self.15.update_batch_from_bind(p15, batch_size, params);
        proof {
                let cur = *self;
                assert(s0.0.update_ok(cur.0, p0, batch_size, params@, r1));
                assert(s0.1.update_ok(cur.1, p1, batch_size, params@, r2));
                assert(s0.2.update_ok(cur.2, p2, batch_size, params@, r3));
                assert(s0.3.update_ok(cur.3, p3, batch_size, params@, r4));
                assert(s0.4.update_ok(cur.4, p4, batch_size, params@, r5));
                assert(s0.5.update_ok(cur.5, p5, batch_size, params@, r6));
                assert(s0.6.update_ok(cur.6, p6, batch_size, params@, r7));
                assert(s0.7.update_ok(cur.7, p7, batch_size, params@, r8));
                assert(s0.8.update_ok(cur.8, p8, batch_size, params@, r9));
                assert(s0.9.update_ok(cur.9, p9, batch_size, params@, r10));
                assert(s0.10.update_ok(cur.10, p10, batch_size, params@, r11));
                assert(s0.11.update_ok(cur.11, p11, batch_size, params@, r12));
                assert(s0.12.update_ok(cur.12, p12, batch_size, params@, r13));
                assert(s0.13.update_ok(cur.13, p13, batch_size, params@, r14));
                assert(s0.14.update_ok(cur.14, p14, batch_size, params@, r15));
                assert(s0.15.update_ok(cur.15, p15, batch_size, params@, r16));
            assert(s0.update_ok(cur, pos, batch_size, params@, r16));
        }
        r16
    }
}

} // verus!
