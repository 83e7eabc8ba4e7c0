use vstd::prelude::*;

verus! {

/// Why the table could not be bound or reached.
#[derive(Clone, Copy, Debug, PartialEq, Eq, Structural)]
pub enum TableError {
    /// No table has been bound yet.
    Uninitialized,
    /// A table is bound already; a handle is bound once.
    AlreadyBound,
}

/// A handle to the service table: unbound at first, then bound exactly once.
#[derive(Debug)]
pub struct TableHandle<T> {
    table: Option<T>,
}

/// The binding that follows an attempt to bind `table` in state `state`.
pub open spec fn bound_after<T>(state: Option<T>, table: T) -> Option<T> {
    match state {
        Some(t) => Some(t),
        None => Some(table),
    }
}

/// The result of an attempt to bind `table` in state `state`.
pub open spec fn bind_result<T>(state: Option<T>, table: T) -> Result<(), TableError> {
    match state {
        Some(_) => Err(TableError::AlreadyBound),
        None => Ok(()),
    }
}

/// What resolving a handle in state `state` gives.
pub open spec fn resolved<T>(state: Option<T>) -> Result<T, TableError> {
    match state {
        Some(t) => Ok(t),
        None => Err(TableError::Uninitialized),
    }
}

impl<T> View for TableHandle<T> {
    type V = Option<T>;

    closed spec fn view(&self) -> Option<T> {
        self.table
    }
}

impl<T: Copy> TableHandle<T> {
    /// A handle bound to `table`.
    pub fn new(table: T) -> (r: Self)
        ensures
            r@ == Some(table),
    {
        TableHandle { table: Some(table) }
    }

    /// A handle that no table is bound to yet.
    pub fn new_uninit() -> (r: Self)
        ensures
            r@ is None,
    {
        TableHandle { table: None }
    }

    /// Binds `table`, unless a table is bound already, in which case the
    /// handle keeps the one it has.
    pub fn initialize(&mut self, table: T) -> (r: Result<(), TableError>)
        ensures
            r == bind_result(old(self)@, table),
            final(self)@ == bound_after(old(self)@, table),
    {
        match self.table {
            Some(_) => Err(TableError::AlreadyBound),
            None => {
                self.table = Some(table);
                Ok(())
            },
        }
    }

    /// The bound table.
    pub fn resolve(&self) -> (r: Result<T, TableError>)
        ensures
            r == resolved(self@),
    {
        match self.table {
            Some(t) => Ok(t),
            None => Err(TableError::Uninitialized),
        }
    }
}

/// Binding an unbound handle twice: the second attempt is refused, and the
/// handle still resolves to the first table.
pub proof fn lemma_second_bind_keeps_first<T>(first: T, second: T)
    ensures
        bind_result(None, first) == Ok::<(), TableError>(()),
        bind_result(bound_after(None, first), second) == Err::<(), TableError>(
            TableError::AlreadyBound,
        ),
        resolved(bound_after(bound_after(None, first), second)) == Ok::<T, TableError>(first),
{
}

} // verus!
