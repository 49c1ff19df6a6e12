//! The portfolio content document: an immutable snapshot handed to the core
//! once, by an external loader. The core never fetches or parses it; it only
//! reads the fields when a command asks for them.

use vstd::prelude::*;
use vstd::string::*;

verus! {

/// One featured project.
#[derive(PartialEq, Debug)]
pub struct Project {
    pub title: String,
    pub description: String,
    pub url: String,
}

/// Mathematical value of a [`Project`].
pub struct ProjectV {
    pub title: Seq<char>,
    pub description: Seq<char>,
    pub url: Seq<char>,
}

impl View for Project {
    type V = ProjectV;

    open spec fn view(&self) -> ProjectV {
        ProjectV { title: self.title@, description: self.description@, url: self.url@ }
    }
}

impl DeepView for Project {
    type V = ProjectV;

    open spec fn deep_view(&self) -> ProjectV {
        self@
    }
}

impl Clone for Project {
    fn clone(&self) -> (r: Self)
        ensures
            r@ == self@,
    {
        Project {
            title: self.title.clone(),
            description: self.description.clone(),
            url: self.url.clone(),
        }
    }
}

/// The four contact channels, shown in this fixed order.
#[derive(PartialEq, Debug)]
pub struct Contact {
    pub email: String,
    pub github: String,
    pub linkedin: String,
    pub twitter: String,
}

/// Mathematical value of a [`Contact`].
pub struct ContactV {
    pub email: Seq<char>,
    pub github: Seq<char>,
    pub linkedin: Seq<char>,
    pub twitter: Seq<char>,
}

impl View for Contact {
    type V = ContactV;

    open spec fn view(&self) -> ContactV {
        ContactV {
            email: self.email@,
            github: self.github@,
            linkedin: self.linkedin@,
            twitter: self.twitter@,
        }
    }
}

impl DeepView for Contact {
    type V = ContactV;

    open spec fn deep_view(&self) -> ContactV {
        self@
    }
}

impl Clone for Contact {
    fn clone(&self) -> (r: Self)
        ensures
            r@ == self@,
    {
        Contact {
            email: self.email.clone(),
            github: self.github.clone(),
            linkedin: self.linkedin.clone(),
            twitter: self.twitter.clone(),
        }
    }
}

/// One entry of the professional journey.
#[derive(PartialEq, Debug)]
pub struct WorkExperience {
    pub company: String,
    pub role: String,
    pub period: String,
    pub description: String,
}

/// Mathematical value of a [`WorkExperience`].
pub struct WorkExperienceV {
    pub company: Seq<char>,
    pub role: Seq<char>,
    pub period: Seq<char>,
    pub description: Seq<char>,
}

impl View for WorkExperience {
    type V = WorkExperienceV;

    open spec fn view(&self) -> WorkExperienceV {
        WorkExperienceV {
            company: self.company@,
            role: self.role@,
            period: self.period@,
            description: self.description@,
        }
    }
}

impl DeepView for WorkExperience {
    type V = WorkExperienceV;

    open spec fn deep_view(&self) -> WorkExperienceV {
        self@
    }
}

impl Clone for WorkExperience {
    fn clone(&self) -> (r: Self)
        ensures
            r@ == self@,
    {
        WorkExperience {
            company: self.company.clone(),
            role: self.role.clone(),
            period: self.period.clone(),
            description: self.description.clone(),
        }
    }
}

/// The whole content document. Before the external load completes the core
/// works against [`PortfolioContent::empty`], an accepted edge case.
pub struct PortfolioContent {
    pub welcome: String,
    pub motd: String,
    pub about: String,
    pub skills: Vec<String>,
    pub projects: Vec<Project>,
    pub contact: Contact,
    pub technologies: Vec<String>,
    pub work_experience: Vec<WorkExperience>,
}

/// Mathematical value of a [`PortfolioContent`].
pub struct PortfolioContentV {
    pub welcome: Seq<char>,
    pub motd: Seq<char>,
    pub about: Seq<char>,
    pub skills: Seq<Seq<char>>,
    pub projects: Seq<ProjectV>,
    pub contact: ContactV,
    pub technologies: Seq<Seq<char>>,
    pub work_experience: Seq<WorkExperienceV>,
}

impl View for PortfolioContent {
    type V = PortfolioContentV;

    open spec fn view(&self) -> PortfolioContentV {
        PortfolioContentV {
            welcome: self.welcome@,
            motd: self.motd@,
            about: self.about@,
            skills: self.skills.deep_view(),
            projects: self.projects.deep_view(),
            contact: self.contact@,
            technologies: self.technologies.deep_view(),
            work_experience: self.work_experience.deep_view(),
        }
    }
}

/// The all-empty document: every string empty, every list empty.
pub open spec fn empty_content() -> PortfolioContentV {
    PortfolioContentV {
        welcome: Seq::empty(),
        motd: Seq::empty(),
        about: Seq::empty(),
        skills: Seq::empty(),
        projects: Seq::empty(),
        contact: ContactV {
            email: Seq::empty(),
            github: Seq::empty(),
            linkedin: Seq::empty(),
            twitter: Seq::empty(),
        },
        technologies: Seq::empty(),
        work_experience: Seq::empty(),
    }
}

impl PortfolioContent {
    /// The default snapshot in force until the external loader delivers one.
    pub fn empty() -> (r: Self)
        ensures
            r@ == empty_content(),
    {
        let r = PortfolioContent {
            welcome: String::new(),
            motd: String::new(),
            about: String::new(),
            skills: Vec::new(),
            projects: Vec::new(),
            contact: Contact {
                email: String::new(),
                github: String::new(),
                linkedin: String::new(),
                twitter: String::new(),
            },
            technologies: Vec::new(),
            work_experience: Vec::new(),
        };
        proof {
            assert(r.skills.deep_view() =~= Seq::<Seq<char>>::empty());
            assert(r.projects.deep_view() =~= Seq::<ProjectV>::empty());
            assert(r.technologies.deep_view() =~= Seq::<Seq<char>>::empty());
            assert(r.work_experience.deep_view() =~= Seq::<WorkExperienceV>::empty());
        }
        r
    }
}

/// Element-wise copy of a string list, with the view carried over.
pub(crate) fn clone_strings(v: &Vec<String>) -> (r: Vec<String>)
    ensures
        r@ == v@,
        r.deep_view() == v.deep_view(),
{
    let mut r: Vec<String> = Vec::new();
    let mut k: usize = 0;
    while k < v.len()
        invariant
            0 <= k <= v@.len(),
            r@ == v@.subrange(0, k as int),
        decreases v@.len() - k,
    {
        r.push(v[k].clone());
        proof {
            assert(r@ =~= v@.subrange(0, k as int + 1));
        }
        k += 1;
    }
    proof {
        assert(v@.subrange(0, v@.len() as int) =~= v@);
        assert(r.deep_view() =~= v.deep_view());
    }
    r
}

/// Element-wise copy of a project list, with the views carried over.
pub(crate) fn clone_projects(v: &Vec<Project>) -> (r: Vec<Project>)
    ensures
        r.deep_view() == v.deep_view(),
{
    let mut r: Vec<Project> = Vec::new();
    let mut k: usize = 0;
    while k < v.len()
        invariant
            0 <= k <= v@.len(),
            r@.len() == k,
            forall|i: int| 0 <= i < k ==> r@[i]@ == v@[i]@,
        decreases v@.len() - k,
    {
        r.push(v[k].clone());
        k += 1;
    }
    proof {
        assert(r.deep_view() =~= v.deep_view());
    }
    r
}

/// Element-wise copy of a work-experience list, with the views carried over.
pub(crate) fn clone_work(v: &Vec<WorkExperience>) -> (r: Vec<WorkExperience>)
    ensures
        r.deep_view() == v.deep_view(),
{
    let mut r: Vec<WorkExperience> = Vec::new();
    let mut k: usize = 0;
    while k < v.len()
        invariant
            0 <= k <= v@.len(),
            r@.len() == k,
            forall|i: int| 0 <= i < k ==> r@[i]@ == v@[i]@,
        decreases v@.len() - k,
    {
        r.push(v[k].clone());
        k += 1;
    }
    proof {
        assert(r.deep_view() =~= v.deep_view());
    }
    r
}

/// Why no content is available: the document could not be retrieved, or it
/// was retrieved but does not conform to the schema. Both are unrecoverable
/// within a session and are surfaced as a single transcript error line.
#[derive(PartialEq, Debug)]
pub enum ContentError {
    /// Network or transport failure while fetching the document.
    Fetch(String),
    /// The document was fetched but could not be parsed.
    Parse(String),
}

/// Mathematical value of a [`ContentError`].
pub enum ContentErrorV {
    Fetch(Seq<char>),
    Parse(Seq<char>),
}

impl View for ContentError {
    type V = ContentErrorV;

    open spec fn view(&self) -> ContentErrorV {
        match self {
            ContentError::Fetch(d) => ContentErrorV::Fetch(d@),
            ContentError::Parse(d) => ContentErrorV::Parse(d@),
        }
    }
}

/// The one line of text that describes a load failure to the user.
pub open spec fn content_error_message(e: ContentErrorV) -> Seq<char> {
    match e {
        ContentErrorV::Fetch(d) => "Failed to fetch content: "@ + d,
        ContentErrorV::Parse(d) => "Failed to parse content: "@ + d,
    }
}

impl ContentError {
    /// Renders the failure as the text of its transcript error line.
    pub fn message(&self) -> (m: String)
        ensures
            m@ == content_error_message(self@),
    {
        match self {
            ContentError::Fetch(d) => String::from_str("Failed to fetch content: ").concat(
                d.as_str(),
            ),
            ContentError::Parse(d) => String::from_str("Failed to parse content: ").concat(
                d.as_str(),
            ),
        }
    }
}

} // verus!
